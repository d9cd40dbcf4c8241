use houdini::exploit_status::ExploitStatus;
use houdini::serde_defaults::{default_false, default_setup_failure, default_skip, default_true};
use houdini::trick::{run_step, run_trick, AttemptOutcome, StepSpec, Trick, TrickRun};

fn step(name: &str) -> StepSpec {
    StepSpec::new(name.to_string())
}

fn completed(status: ExploitStatus) -> AttemptOutcome {
    AttemptOutcome::Completed { status, detail: None }
}

#[test]
fn test_api_trick() {
    let trick = Trick { name: "foo".to_string(), steps: vec![] };
    let report = run_trick(trick, &vec![]).expect("trick should succeed");
    assert_eq!(report.name, "foo");
    assert_eq!(report.steps.len(), 0);
}

#[test]
fn defaults_have_their_values() {
    assert!(default_true());
    assert!(!default_false());
    assert_eq!(default_setup_failure(), ExploitStatus::SetupFailure);
    assert_eq!(default_skip(), ExploitStatus::Skip);
}

#[test]
fn report_has_trick_name_and_one_entry_per_step() {
    for n in 0..5usize {
        let steps: Vec<StepSpec> = (0..n).map(|i| step(&format!("s{}", i))).collect();
        let outcomes: Vec<AttemptOutcome> = (0..n).map(|_| completed(ExploitStatus::Failure)).collect();
        let report = run_trick(Trick { name: "t".to_string(), steps }, &outcomes).unwrap();
        assert_eq!(report.name, "t");
        assert_eq!(report.steps.len(), n);
    }
}

#[test]
fn reports_follow_step_order() {
    let steps = vec![step("c"), step("a"), step("b")];
    let outcomes = vec![
        completed(ExploitStatus::Success),
        completed(ExploitStatus::Failure),
        completed(ExploitStatus::Skip),
    ];
    let report = run_trick(Trick { name: "order".to_string(), steps }, &outcomes).unwrap();
    let names: Vec<&str> = report.steps.iter().map(|r| r.step_name.as_str()).collect();
    assert_eq!(names, vec!["c", "a", "b"]);
    assert_eq!(report.steps[0].status, ExploitStatus::Success);
    assert_eq!(report.steps[1].status, ExploitStatus::Failure);
    assert_eq!(report.steps[2].status, ExploitStatus::Skip);
}

#[test]
fn fault_becomes_failure_and_later_steps_still_run() {
    let steps = vec![step("first"), step("crashes"), step("after")];
    let outcomes = vec![
        completed(ExploitStatus::Failure),
        AttemptOutcome::Fault { message: "segfault".to_string() },
        completed(ExploitStatus::Success),
    ];
    let report = run_trick(Trick { name: "f".to_string(), steps }, &outcomes).unwrap();
    assert_eq!(report.steps.len(), 3);
    assert_eq!(report.steps[1].status, ExploitStatus::Failure);
    assert_eq!(report.steps[1].detail.as_deref(), Some("segfault"));
    assert_eq!(report.steps[2].step_name, "after");
    assert_eq!(report.steps[2].status, ExploitStatus::Success);
}

#[test]
fn two_tricks_do_not_mix() {
    let t1 = Trick { name: "one".to_string(), steps: vec![step("a1"), step("a2")] };
    let t2 = Trick { name: "two".to_string(), steps: vec![step("b1")] };
    let r1 = run_trick(t1, &vec![completed(ExploitStatus::Success), completed(ExploitStatus::Failure)]).unwrap();
    let r2 = run_trick(t2, &vec![completed(ExploitStatus::Skip)]).unwrap();
    assert_eq!(r1.name, "one");
    assert_eq!(r1.steps.iter().map(|r| r.step_name.clone()).collect::<Vec<_>>(), vec!["a1", "a2"]);
    assert_eq!(r2.name, "two");
    assert_eq!(r2.steps.iter().map(|r| r.step_name.clone()).collect::<Vec<_>>(), vec!["b1"]);
    assert_eq!(r2.steps[0].status, ExploitStatus::Skip);
}

#[test]
fn outcome_count_must_match_step_count() {
    let t = Trick { name: "m".to_string(), steps: vec![step("a")] };
    assert!(run_trick(t, &vec![]).is_none());
    let t = Trick { name: "m".to_string(), steps: vec![] };
    assert!(run_trick(t, &vec![completed(ExploitStatus::Success)]).is_none());
}

#[test]
fn inapplicable_step_takes_its_declared_status() {
    let default_step = step("probe");
    let r = run_step(&default_step, &AttemptOutcome::Inapplicable { detail: Some("no cap".to_string()) });
    assert_eq!(r.status, ExploitStatus::SetupFailure);
    assert_eq!(r.detail.as_deref(), Some("no cap"));
    let skipping = StepSpec { name: "maybe".to_string(), on_inapplicable: default_skip() };
    let r = run_step(&skipping, &AttemptOutcome::Inapplicable { detail: None });
    assert_eq!(r.step_name, "maybe");
    assert_eq!(r.status, ExploitStatus::Skip);
    assert_eq!(r.detail, None);
}

#[test]
fn completed_step_keeps_its_own_status() {
    let skipping = StepSpec { name: "s".to_string(), on_inapplicable: ExploitStatus::Skip };
    let r = run_step(
        &skipping,
        &AttemptOutcome::Completed { status: ExploitStatus::Success, detail: Some("escaped".to_string()) },
    );
    assert_eq!(r.status, ExploitStatus::Success);
    assert_eq!(r.detail.as_deref(), Some("escaped"));
}

#[test]
fn trick_run_step_by_step() {
    let t = Trick { name: "r".to_string(), steps: vec![step("x"), step("y")] };
    let mut run = TrickRun::start(t);
    assert_eq!(run.next_step(), Some(0));
    run.record(&AttemptOutcome::Fault { message: "boom".to_string() });
    assert_eq!(run.next_step(), Some(1));
    run.record(&completed(ExploitStatus::Success));
    assert_eq!(run.next_step(), None);
    let report = run.finish();
    assert_eq!(report.name, "r");
    assert_eq!(report.steps[0].status, ExploitStatus::Failure);
    assert_eq!(report.steps[1].status, ExploitStatus::Success);
}
