//! Tricks, their step reports, and the engine that runs a trick step by step.
//!
//! Running an exploit attempt is outside work: the caller performs the attempt
//! of the step that [`TrickRun::next_step`] names and hands its outcome to
//! [`TrickRun::record`]. The engine turns each outcome into exactly one report,
//! in step order, and never stops early.

use vstd::prelude::*;

use crate::exploit_status::ExploitStatus;
use crate::serde_defaults::default_setup_failure;

verus! {

/// One step of a trick: a named exploit attempt.
pub struct StepSpec {
    pub name: String,
    /// The status reported when the attempt cannot establish its prerequisites.
    pub on_inapplicable: ExploitStatus,
}

/// What one exploit attempt yielded.
pub enum AttemptOutcome {
    /// The attempt ran and classified its own result.
    Completed { status: ExploitStatus, detail: Option<String> },
    /// The attempt could not establish its prerequisites.
    Inapplicable { detail: Option<String> },
    /// The attempt itself failed unexpectedly (it crashed or raised an error).
    Fault { message: String },
}

/// The report of one step.
pub struct StepReport {
    pub step_name: String,
    pub status: ExploitStatus,
    pub detail: Option<String>,
}

/// A named, ordered list of steps.
pub struct Trick {
    pub name: String,
    pub steps: Vec<StepSpec>,
}

/// The report of a whole trick: one step report per step, in step order.
pub struct TrickReport {
    pub name: String,
    pub steps: Vec<StepReport>,
}

/// Mathematical model of a step report.
pub struct StepReportModel {
    pub step_name: Seq<char>,
    pub status: ExploitStatus,
    pub detail: Option<Seq<char>>,
}

/// Mathematical model of a trick report.
pub struct TrickReportModel {
    pub name: Seq<char>,
    pub steps: Seq<StepReportModel>,
}

pub open spec fn opt_str(o: Option<String>) -> Option<Seq<char>> {
    match o {
        Some(s) => Some(s@),
        None => None,
    }
}

impl View for StepReport {
    type V = StepReportModel;

    open spec fn view(&self) -> StepReportModel {
        StepReportModel { step_name: self.step_name@, status: self.status, detail: opt_str(self.detail) }
    }
}

pub open spec fn step_reports_view(s: Seq<StepReport>) -> Seq<StepReportModel> {
    s.map_values(|r: StepReport| r@)
}

impl View for TrickReport {
    type V = TrickReportModel;

    open spec fn view(&self) -> TrickReportModel {
        TrickReportModel { name: self.name@, steps: step_reports_view(self.steps@) }
    }
}

/// The report that one step yields for a given outcome of its attempt.
pub open spec fn step_model(spec: StepSpec, outcome: AttemptOutcome) -> StepReportModel {
    match outcome {
        AttemptOutcome::Completed { status, detail } => StepReportModel {
            step_name: spec.name@,
            status,
            detail: opt_str(detail),
        },
        AttemptOutcome::Inapplicable { detail } => StepReportModel {
            step_name: spec.name@,
            status: spec.on_inapplicable,
            detail: opt_str(detail),
        },
        AttemptOutcome::Fault { message } => StepReportModel {
            step_name: spec.name@,
            status: ExploitStatus::Failure,
            detail: Some(message@),
        },
    }
}

/// The report of a trick whose steps' attempts yielded `outcomes`, one per step.
pub open spec fn run_model(trick: Trick, outcomes: Seq<AttemptOutcome>) -> TrickReportModel {
    TrickReportModel {
        name: trick.name@,
        steps: Seq::new(trick.steps@.len(), |i: int| step_model(trick.steps@[i], outcomes[i])),
    }
}

fn clone_detail(d: &Option<String>) -> (r: Option<String>)
    ensures
        r == *d,
{
    match d {
        Some(s) => Some(s.clone()),
        None => None,
    }
}

impl StepSpec {
    /// A step that reports `SetupFailure` when it cannot run here.
    pub fn new(name: String) -> (r: StepSpec)
        ensures
            r.name == name,
            r.on_inapplicable == ExploitStatus::SetupFailure,
    {
        StepSpec { name, on_inapplicable: default_setup_failure() }
    }
}

/// Turns the outcome of one step's attempt into that step's report: an
/// unexpected fault becomes `Failure` with the fault's message as detail, and
/// an attempt that cannot run here takes the step's declared status.
pub fn run_step(spec: &StepSpec, outcome: &AttemptOutcome) -> (r: StepReport)
    ensures
        r@ == step_model(*spec, *outcome),
{
    let step_name = spec.name.clone();
    match outcome {
        AttemptOutcome::Completed { status, detail } => {
            StepReport { step_name, status: *status, detail: clone_detail(detail) }
        },
        AttemptOutcome::Inapplicable { detail } => {
            StepReport { step_name, status: spec.on_inapplicable, detail: clone_detail(detail) }
        },
        AttemptOutcome::Fault { message } => {
            StepReport { step_name, status: ExploitStatus::Failure, detail: Some(message.clone()) }
        },
    }
}

/// A trick in progress: the reports of the steps attempted so far.
pub struct TrickRun {
    pub name: String,
    pub specs: Vec<StepSpec>,
    pub reports: Vec<StepReport>,
    /// The outcomes recorded so far, one per report.
    pub outcomes: Ghost<Seq<AttemptOutcome>>,
}

impl TrickRun {
    /// Each report so far is the report of its step for its recorded outcome.
    pub open spec fn wf(&self) -> bool {
        &&& self.reports@.len() <= self.specs@.len()
        &&& self.outcomes@.len() == self.reports@.len()
        &&& forall|i: int|
            0 <= i < self.reports@.len() ==> #[trigger] self.reports@[i]@ == step_model(
                self.specs@[i],
                self.outcomes@[i],
            )
    }

    pub open spec fn is_done(&self) -> bool {
        self.reports@.len() == self.specs@.len()
    }

    /// The trick as handed over, with none of its steps attempted yet.
    pub fn start(trick: Trick) -> (r: TrickRun)
        ensures
            r.wf(),
            r.name == trick.name,
            r.specs@ == trick.steps@,
            r.reports@.len() == 0,
    {
        TrickRun { name: trick.name, specs: trick.steps, reports: Vec::new(), outcomes: Ghost(Seq::empty()) }
    }

    /// The index of the step to attempt next, or `None` once every step has a report.
    pub fn next_step(&self) -> (r: Option<usize>)
        requires
            self.wf(),
        ensures
            self.is_done() ==> r.is_none(),
            !self.is_done() ==> (r matches Some(i) && i == self.reports@.len()),
    {
        if self.reports.len() < self.specs.len() {
            Some(self.reports.len())
        } else {
            None
        }
    }

    /// Records the outcome of the attempt of the next step, whatever kind it is.
    pub fn record(&mut self, outcome: &AttemptOutcome)
        requires
            old(self).wf(),
            !old(self).is_done(),
        ensures
            final(self).wf(),
            final(self).name == old(self).name,
            final(self).specs@ == old(self).specs@,
            final(self).outcomes@ == old(self).outcomes@.push(*outcome),
            final(self).reports@.len() == old(self).reports@.len() + 1,
            forall|i: int|
                0 <= i < old(self).reports@.len() ==> #[trigger] final(self).reports@[i] == old(
                    self,
                ).reports@[i],
    {
        let i = self.reports.len();
        let report = run_step(&self.specs[i], outcome);
        self.reports.push(report);
        self.outcomes = Ghost(self.outcomes@.push(*outcome));
    }

    /// The report of the finished trick.
    pub fn finish(self) -> (r: TrickReport)
        requires
            self.wf(),
            self.is_done(),
        ensures
            r@ == run_model(Trick { name: self.name, steps: self.specs }, self.outcomes@),
    {
        let r = TrickReport { name: self.name, steps: self.reports };
        proof {
            let m = run_model(Trick { name: r.name, steps: self.specs }, self.outcomes@);
            assert(r@.steps =~= m.steps);
        }
        r
    }
}

/// Runs a trick whose steps' attempts yielded `outcomes`, one per step in step
/// order. Every step gets a report, whatever the outcome of the ones before it.
/// Returns `None` when the number of outcomes differs from the number of steps.
pub fn run_trick(trick: Trick, outcomes: &Vec<AttemptOutcome>) -> (r: Option<TrickReport>)
    ensures
        outcomes@.len() != trick.steps@.len() ==> r.is_none(),
        outcomes@.len() == trick.steps@.len() ==> (r matches Some(rep) && rep@ == run_model(trick, outcomes@)),
{
    if outcomes.len() != trick.steps.len() {
        return None;
    }
    let ghost t = trick;
    let mut run = TrickRun::start(trick);
    assert(run.outcomes@ =~= outcomes@.subrange(0, 0));
    loop
        invariant
            run.wf(),
            run.name == t.name,
            run.specs@ == t.steps@,
            outcomes@.len() == t.steps@.len(),
            run.outcomes@ == outcomes@.subrange(0, run.reports@.len() as int),
        ensures
            run.wf(),
            run.is_done(),
            run.name == t.name,
            run.specs@ == t.steps@,
            run.outcomes@ == outcomes@.subrange(0, run.reports@.len() as int),
        decreases run.specs@.len() - run.reports@.len(),
    {
        let next = run.next_step();
        let i = match next {
            Some(i) => i,
            None => break,
        };
        run.record(&outcomes[i]);
        assert(run.outcomes@ =~= outcomes@.subrange(0, i + 1));
    }
    assert(run.outcomes@ =~= outcomes@);
    Some(run.finish())
}

/// Running a trick yields a report with the trick's name and one step report
/// per step, for any number of steps, none included.
pub proof fn lemma_report_mirrors_trick(trick: Trick, outcomes: Seq<AttemptOutcome>)
    requires
        outcomes.len() == trick.steps@.len(),
    ensures
        run_model(trick, outcomes).name == trick.name@,
        run_model(trick, outcomes).steps.len() == trick.steps@.len(),
{
}

/// The step reports come in the order of the steps: the report at each
/// position names the step at that position and reflects that step's outcome.
pub proof fn lemma_report_order(trick: Trick, outcomes: Seq<AttemptOutcome>)
    requires
        outcomes.len() == trick.steps@.len(),
    ensures
        forall|i: int|
            0 <= i < trick.steps@.len() ==> {
                &&& (#[trigger] run_model(trick, outcomes).steps[i]).step_name == trick.steps@[i].name@
                &&& run_model(trick, outcomes).steps[i] == step_model(trick.steps@[i], outcomes[i])
            },
{
}

/// A step whose attempt faulted is reported as `Failure`, and every later step
/// still gets its own report.
pub proof fn lemma_fault_isolated(trick: Trick, outcomes: Seq<AttemptOutcome>, i: int)
    requires
        outcomes.len() == trick.steps@.len(),
        0 <= i < outcomes.len(),
        outcomes[i] is Fault,
    ensures
        run_model(trick, outcomes).steps[i].status == ExploitStatus::Failure,
        run_model(trick, outcomes).steps[i].detail is Some,
        run_model(trick, outcomes).steps.len() == trick.steps@.len(),
        forall|j: int|
            i < j < trick.steps@.len() ==> #[trigger] run_model(trick, outcomes).steps[j] == step_model(
                trick.steps@[j],
                outcomes[j],
            ),
{
}

/// Two tricks run side by side do not mix: each report depends only on its own
/// trick and outcomes, and names only its own trick's steps.
pub proof fn lemma_reports_independent(
    t1: Trick,
    o1: Seq<AttemptOutcome>,
    t2: Trick,
    o2: Seq<AttemptOutcome>,
)
    requires
        o1.len() == t1.steps@.len(),
        o2.len() == t2.steps@.len(),
    ensures
        run_model(t1, o1).steps.map_values(|r: StepReportModel| r.step_name) =~= t1.steps@.map_values(
            |s: StepSpec| s.name@,
        ),
        run_model(t2, o2).steps.map_values(|r: StepReportModel| r.step_name) =~= t2.steps@.map_values(
            |s: StepSpec| s.name@,
        ),
        (t1.name@ == t2.name@ && t1.steps@ == t2.steps@ && o1 == o2) ==> run_model(t1, o1) == run_model(t2, o2),
{
}

} // verus!
