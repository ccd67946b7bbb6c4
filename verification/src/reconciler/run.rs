//! A run of the reconciler: which jobs its scans start, what ends it, and what it
//! comes to once its last job has ended.

use super::{self as reconciler, after_scan, ActiveJobs, JobsView};
use crate::ids::MaterializationId;
use crate::manifest;
use crate::materialization::{MaterializationRecord, MaterializationState};
use crate::store::{self, StoreError, StoreErrorView};
use vstd::prelude::*;
use vstd::string::*;

verus! {

/// How long the last jobs of a run may take, in seconds.
pub const DRAIN_SECONDS: u64 = 20;

/// A run of the reconciler.
pub struct Run {
    active: ActiveJobs,
    scan_failures: u32,
    outcome: Option<Result<(), StoreError>>,
    lost: Option<String>,
    cut_off: bool,
}

/// The mathematical model of a [`Run`].
#[verifier::ext_equal]
pub struct RunView {
    pub jobs: JobsView,
    pub capacity: nat,
    /// How many scans failed one after another.
    pub scan_failures: u32,
    /// What ended the run, once something did.
    pub outcome: Option<Result<(), StoreErrorView>>,
    /// How the first of the last jobs failed to come to an end of its own.
    pub lost: Option<Seq<char>>,
    /// The last jobs took too long and were cut off.
    pub cut_off: bool,
}

impl View for Run {
    type V = RunView;

    closed spec fn view(&self) -> RunView {
        RunView {
            jobs: self.active@.jobs,
            capacity: self.active@.capacity,
            scan_failures: self.scan_failures,
            outcome: match self.outcome {
                Some(outcome) => Some(store::plain_answer(outcome)),
                None => None,
            },
            lost: manifest::optional_view(self.lost),
            cut_off: self.cut_off,
        }
    }
}

/// The run once it has ended. What ended it first counts.
pub open spec fn ended(run: RunView, outcome: Result<(), StoreErrorView>) -> RunView {
    match run.outcome {
        Some(_) => run,
        None => RunView { outcome: Some(outcome), ..run },
    }
}

/// The run once a job is no more.
pub open spec fn job_gone(run: RunView, id: Seq<char>) -> RunView {
    RunView { jobs: reconciler::without_job(run.jobs, id), ..run }
}

/// The run once a job did not come to an end of its own. That ends the run; of the
/// last jobs of a run that has ended, the first such failure is kept.
pub open spec fn job_failed(run: RunView, id: Seq<char>, failure: Seq<char>) -> RunView {
    let rest = job_gone(run, id);
    match run.outcome {
        None => ended(
            rest,
            Err(
                StoreErrorView::Unavailable {
                    message: "reconciliation task failed: "@ + failure,
                },
            ),
        ),
        Some(_) => if run.lost is None {
            RunView { lost: Some(failure), ..rest }
        } else {
            rest
        },
    }
}

/// The run once the time for its last jobs is over.
pub open spec fn jobs_cut_off(run: RunView) -> RunView {
    match run.outcome {
        None => run,
        Some(_) => RunView { cut_off: true, ..run },
    }
}

/// The jobs once the first of some candidates were looked at, in order.
pub open spec fn jobs_after(
    jobs: JobsView,
    capacity: nat,
    candidates: Seq<MaterializationRecord>,
    count: nat,
) -> JobsView
    decreases count,
{
    if count == 0 || count > candidates.len() {
        jobs
    } else {
        let before = jobs_after(jobs, capacity, candidates, (count - 1) as nat);
        let candidate = candidates[count - 1];
        if reconciler::may_start(before, capacity, candidate.id@, candidate.state) {
            before.push((candidate.id@, candidate.state))
        } else {
            before
        }
    }
}

/// The places of the candidates that start, among the first of some.
pub open spec fn places_started(
    jobs: JobsView,
    capacity: nat,
    candidates: Seq<MaterializationRecord>,
    count: nat,
) -> Seq<usize>
    decreases count,
{
    if count == 0 || count > candidates.len() {
        Seq::empty()
    } else {
        let before = jobs_after(jobs, capacity, candidates, (count - 1) as nat);
        let earlier = places_started(jobs, capacity, candidates, (count - 1) as nat);
        let candidate = candidates[count - 1];
        if reconciler::may_start(before, capacity, candidate.id@, candidate.state) {
            earlier.push((count - 1) as usize)
        } else {
            earlier
        }
    }
}

/// The run once a scan found candidates.
pub open spec fn scan_found(run: RunView, candidates: Seq<MaterializationRecord>) -> RunView {
    if run.outcome is Some {
        run
    } else {
        RunView {
            jobs: jobs_after(run.jobs, run.capacity, candidates, candidates.len()),
            scan_failures: 0,
            ..run
        }
    }
}

/// The run once a scan failed: it ends with the fifth failure in a row.
pub open spec fn scan_missed(run: RunView, error: StoreErrorView) -> RunView {
    if run.outcome is Some {
        run
    } else if run.scan_failures >= 4 {
        RunView {
            scan_failures: if run.scan_failures < u32::MAX {
                (run.scan_failures + 1) as u32
            } else {
                u32::MAX
            },
            outcome: Some(Err(error)),
            ..run
        }
    } else {
        RunView { scan_failures: (run.scan_failures + 1) as u32, ..run }
    }
}

/// What happens to a run.
pub enum RunEvent {
    ShutDown,
    JobEnded { id: Seq<char> },
    JobLost { id: Seq<char>, failure: Seq<char> },
    DeletionsFailed { error: StoreErrorView },
    ScanFailed { error: StoreErrorView },
    Scanned { candidates: Seq<MaterializationRecord> },
    CutOff,
}

/// The run after something happened.
pub open spec fn run_after(run: RunView, event: RunEvent) -> RunView {
    match event {
        RunEvent::ShutDown => ended(run, Ok(())),
        RunEvent::JobEnded { id } => job_gone(run, id),
        RunEvent::JobLost { id, failure } => job_failed(run, id, failure),
        RunEvent::DeletionsFailed { error } => ended(run, Err(error)),
        RunEvent::ScanFailed { error } => scan_missed(run, error),
        RunEvent::Scanned { candidates } => scan_found(run, candidates),
        RunEvent::CutOff => jobs_cut_off(run),
    }
}

/// A run that has no jobs yet.
pub open spec fn begun(concurrency_limit: nat) -> RunView {
    RunView {
        jobs: JobsView::empty(),
        capacity: reconciler::capacity_of(concurrency_limit),
        scan_failures: 0,
        outcome: None,
        lost: None,
        cut_off: false,
    }
}

impl Run {
    /// A run that has no jobs yet.
    pub fn begin(concurrency_limit: usize) -> (run: Run)
        ensures
            run@ == begun(concurrency_limit as nat),
    {
        Run {
            active: ActiveJobs::new(concurrency_limit),
            scan_failures: 0,
            outcome: None,
            lost: None,
            cut_off: false,
        }
    }

    /// Whether the run goes on.
    pub fn is_running(&self) -> (running: bool)
        ensures
            running == (self@.outcome is None),
    {
        self.outcome.is_none()
    }

    /// How many jobs have not ended yet.
    pub fn jobs(&self) -> (count: usize)
        ensures
            count == self@.jobs.len(),
            reconciler::jobs_fit(self@.jobs, self@.capacity),
    {
        self.active.len()
    }

    fn end(&mut self, outcome: Result<(), StoreError>)
        ensures
            final(self)@ == ended(old(self)@, store::plain_answer(outcome)),
    {
        if self.outcome.is_none() {
            self.outcome = Some(outcome);
        }
    }

    /// The control plane shuts down.
    pub fn shut_down(&mut self)
        ensures
            final(self)@ == run_after(old(self)@, RunEvent::ShutDown),
    {
        self.end(Ok(()))
    }

    /// A job ended, well or not: what it came to is its own.
    pub fn job_ended(&mut self, id: &MaterializationId)
        ensures
            final(self)@ == run_after(old(self)@, RunEvent::JobEnded { id: id@ }),
    {
        self.active.finish(id);
    }

    /// A job did not come to an end of its own.
    pub fn job_lost(&mut self, id: &MaterializationId, failure: &str)
        ensures
            final(self)@ == run_after(
                old(self)@,
                RunEvent::JobLost { id: id@, failure: failure@ },
            ),
    {
        self.active.finish(id);
        if self.outcome.is_some() {
            if self.lost.is_none() {
                self.lost = Some(failure.to_owned());
            }
            return;
        }
        let message = "reconciliation task failed: ".to_owned().concat(failure);
        self.end(Err(StoreError::unavailable(message.as_str())))
    }

    /// Instances whose deletion was due could not be deleted.
    pub fn deletions_failed(&mut self, error: StoreError)
        ensures
            final(self)@ == run_after(old(self)@, RunEvent::DeletionsFailed { error: error@ }),
    {
        self.end(Err(error))
    }

    /// The time for the last jobs is over: whoever runs them ends those that are
    /// left.
    pub fn cut_off(&mut self)
        ensures
            final(self)@ == run_after(old(self)@, RunEvent::CutOff),
    {
        if self.outcome.is_some() {
            self.cut_off = true;
        }
    }

    /// A scan failed.
    pub fn scan_failed(&mut self, error: StoreError)
        ensures
            final(self)@ == run_after(old(self)@, RunEvent::ScanFailed { error: error@ }),
    {
        if self.outcome.is_some() {
            return;
        }
        let (failures, enough) = after_scan(self.scan_failures, false);
        self.scan_failures = failures;
        if enough {
            self.outcome = Some(Err(error));
        }
    }

    /// A scan found candidates. The answer tells the places of those that start, in
    /// order.
    pub fn scanned(&mut self, candidates: &Vec<MaterializationRecord>) -> (places: Vec<usize>)
        ensures
            final(self)@ == run_after(
                old(self)@,
                RunEvent::Scanned { candidates: candidates@ },
            ),
            places@ == (if old(self)@.outcome is Some {
                Seq::<usize>::empty()
            } else {
                places_started(
                    old(self)@.jobs,
                    old(self)@.capacity,
                    candidates@,
                    candidates@.len(),
                )
            }),
    {
        let mut places: Vec<usize> = Vec::new();
        if self.outcome.is_some() {
            return places;
        }
        self.scan_failures = 0;
        let ghost jobs = old(self)@.jobs;
        let ghost capacity = old(self)@.capacity;
        let mut at: usize = 0;
        while at < candidates.len()
            invariant
                at <= candidates@.len(),
                jobs == old(self)@.jobs,
                capacity == old(self)@.capacity,
                old(self)@.outcome is None,
                self.outcome is None,
                self@ == (RunView {
                    jobs: jobs_after(jobs, capacity, candidates@, at as nat),
                    scan_failures: 0,
                    ..old(self)@
                }),
                places@ == places_started(jobs, capacity, candidates@, at as nat),
            decreases candidates@.len() - at,
        {
            if self.active.start(&candidates[at].id, candidates[at].state) {
                places.push(at);
            }
            at = at + 1;
        }
        places
    }

    /// What the run comes to, once it has ended and every job of it has: what ended
    /// it, then how its last jobs ended. A run whose jobs were cut off tells only
    /// that.
    pub fn verdict(self) -> (verdict: Option<Result<(), StoreError>>)
        ensures
            (match verdict {
                Some(result) => Some(store::plain_answer(result)),
                None => None,
            }) == run_verdict(self@),
    {
        if self.active.len() > 0 {
            return None;
        }
        match self.outcome {
            None => None,
            Some(Err(error)) => Some(Err(error)),
            Some(Ok(_)) => Some(
                if self.cut_off {
                    Err(StoreError::unavailable("reconciliation shutdown deadline exceeded"))
                } else {
                    match self.lost {
                        Some(failure) => Err(StoreError::unavailable(failure.as_str())),
                        None => Ok(()),
                    }
                },
            ),
        }
    }
}

/// What a run comes to, once it has ended and every job of it has.
pub open spec fn run_verdict(run: RunView) -> Option<Result<(), StoreErrorView>> {
    if run.jobs.len() > 0 {
        None
    } else {
        match run.outcome {
            None => None,
            Some(Err(error)) => Some(Err(error)),
            Some(Ok(_)) => Some(
                if run.cut_off {
                    Err(
                        StoreErrorView::Unavailable {
                            message: "reconciliation shutdown deadline exceeded"@,
                        },
                    )
                } else {
                    match run.lost {
                        Some(failure) => Err(StoreErrorView::Unavailable { message: failure }),
                        None => Ok(()),
                    }
                },
            ),
        }
    }
}

/// A run comes to something only when it has ended and every job that it started
/// has ended too.
pub proof fn law_a_verdict_waits_for_every_job(run: RunView)
    ensures
        run_verdict(run) is Some <==> run.outcome is Some && run.jobs.len() == 0,
{
}

/// A job that was started stays with its run until its own end is told, whatever
/// else happens.
pub proof fn law_a_job_stays_until_its_end(run: RunView, event: RunEvent, id: Seq<char>)
    requires
        reconciler::works_on(run.jobs, id),
        !(event matches RunEvent::JobEnded { id: other } && other == id),
        !(event matches RunEvent::JobLost { id: other, .. } && other == id),
    ensures
        reconciler::works_on(run_after(run, event).jobs, id),
{
    let at = choose|at: int| 0 <= at < run.jobs.len() && (#[trigger] run.jobs[at]).0 == id;
    match event {
        RunEvent::JobEnded { id: other } => {
            reconciler::lemma_other_jobs_stay(run.jobs, other, id);
        },
        RunEvent::JobLost { id: other, .. } => {
            reconciler::lemma_other_jobs_stay(run.jobs, other, id);
        },
        RunEvent::Scanned { candidates } => {
            if run.outcome is None {
                lemma_jobs_go_on(run.jobs, run.capacity, candidates, candidates.len());
                let after = jobs_after(run.jobs, run.capacity, candidates, candidates.len());
                assert(after.take(run.jobs.len() as int)[at] == after[at]);
                assert(after[at].0 == id);
            }
        },
        _ => {},
    }
}

proof fn lemma_jobs_go_on(
    jobs: JobsView,
    capacity: nat,
    candidates: Seq<MaterializationRecord>,
    count: nat,
)
    requires
        count <= candidates.len(),
    ensures
        jobs_after(jobs, capacity, candidates, count).len() >= jobs.len(),
        jobs_after(jobs, capacity, candidates, count).take(jobs.len() as int) == jobs,
    decreases count,
{
    if count == 0 {
        assert(jobs.take(jobs.len() as int) =~= jobs);
    } else {
        lemma_jobs_go_on(jobs, capacity, candidates, (count - 1) as nat);
        let before = jobs_after(jobs, capacity, candidates, (count - 1) as nat);
        let after = jobs_after(jobs, capacity, candidates, count);
        assert(after.take(jobs.len() as int) =~= before.take(jobs.len() as int));
    }
}

/// The run after all that happened to it, in order.
pub open spec fn run_after_all(run: RunView, events: Seq<RunEvent>) -> RunView
    decreases events.len(),
{
    if events.len() == 0 {
        run
    } else {
        run_after(run_after_all(run, events.drop_last()), events.last())
    }
}

/// Whatever happens to a run, at every moment its jobs fit: no more run than the
/// limit allows, of which there are at least two, one place is left to deletions,
/// and no materialization is worked on twice.
pub proof fn law_every_run_keeps_its_bounds(concurrency_limit: nat, events: Seq<RunEvent>)
    ensures
        reconciler::jobs_fit(
            run_after_all(begun(concurrency_limit), events).jobs,
            reconciler::capacity_of(concurrency_limit),
        ),
        run_after_all(begun(concurrency_limit), events).capacity == reconciler::capacity_of(
            concurrency_limit,
        ),
    decreases events.len(),
{
    if events.len() > 0 {
        law_every_run_keeps_its_bounds(concurrency_limit, events.drop_last());
        let run = run_after_all(begun(concurrency_limit), events.drop_last());
        match events.last() {
            RunEvent::JobEnded { id } => {
                reconciler::law_jobs_keep_fitting(
                    run.jobs,
                    run.capacity,
                    id,
                    MaterializationState::Ready,
                );
            },
            RunEvent::JobLost { id, failure } => {
                reconciler::law_jobs_keep_fitting(
                    run.jobs,
                    run.capacity,
                    id,
                    MaterializationState::Ready,
                );
            },
            RunEvent::Scanned { candidates } => {
                law_scans_keep_the_jobs_fitting(
                    run.jobs,
                    run.capacity,
                    candidates,
                    candidates.len(),
                );
            },
            _ => {},
        }
    }
}

/// The first deletion that fails ends a run with its error, and whatever ended a run
/// first stays what ended it.
pub proof fn law_the_first_end_counts(run: RunView, error: StoreErrorView, event: RunEvent)
    ensures
        run.outcome is None ==> run_after(run, RunEvent::DeletionsFailed { error }).outcome == Some(
            Err::<(), StoreErrorView>(error),
        ),
        run.outcome is Some ==> run_after(run, event).outcome == run.outcome,
{
}

/// A run comes to nothing bad only where nothing bad ended it and every last job
/// came to an end of its own in time.
pub proof fn law_no_lost_job_is_hidden(run: RunView)
    ensures
        (run_verdict(run) matches Some(Ok(_))) <==> run.jobs.len() == 0 && (
        run.outcome matches Some(Ok(_))) && !run.cut_off && run.lost is None,
{
}

/// Once a run has ended, no scan starts a job.
pub proof fn law_nothing_starts_after_the_end(
    run: RunView,
    candidates: Seq<MaterializationRecord>,
    outcome: Result<(), StoreErrorView>,
)
    ensures
        scan_found(ended(run, outcome), candidates) == ended(run, outcome),
        ended(run, outcome).jobs == run.jobs,
{
}

/// However many candidates a scan finds, the jobs still fit: no more than the
/// capacity allows, wakes leave one place free, and no materialization is worked
/// on twice. Jobs that run already go on.
pub proof fn law_scans_keep_the_jobs_fitting(
    jobs: JobsView,
    capacity: nat,
    candidates: Seq<MaterializationRecord>,
    count: nat,
)
    requires
        reconciler::jobs_fit(jobs, capacity),
        count <= candidates.len(),
    ensures
        reconciler::jobs_fit(jobs_after(jobs, capacity, candidates, count), capacity),
        jobs_after(jobs, capacity, candidates, count).len() == jobs.len() + places_started(
            jobs,
            capacity,
            candidates,
            count,
        ).len(),
        jobs_after(jobs, capacity, candidates, count).take(jobs.len() as int) == jobs,
    decreases count,
{
    if count == 0 {
        assert(jobs.take(jobs.len() as int) =~= jobs);
    } else {
        let before = jobs_after(jobs, capacity, candidates, (count - 1) as nat);
        let candidate = candidates[count - 1];
        law_scans_keep_the_jobs_fitting(jobs, capacity, candidates, (count - 1) as nat);
        reconciler::law_jobs_keep_fitting(before, capacity, candidate.id@, candidate.state);
        let after = jobs_after(jobs, capacity, candidates, count);
        assert(after.take(jobs.len() as int) =~= before.take(jobs.len() as int));
    }
}

/// Five scans that fail one after another end a run, and fewer do not.
pub proof fn law_five_failed_scans_end_a_run(run: RunView, errors: Seq<StoreErrorView>)
    requires
        run.outcome is None,
        run.scan_failures == 0,
        errors.len() == 5,
    ensures
        scans_missed(run, errors, 4).outcome is None,
        scans_missed(run, errors, 5).outcome == Some(Err::<(), StoreErrorView>(errors[4])),
{
    reveal_with_fuel(scans_missed, 6);
}

/// The run after the first of some failed scans.
pub open spec fn scans_missed(run: RunView, errors: Seq<StoreErrorView>, count: nat) -> RunView
    decreases count,
{
    if count == 0 {
        run
    } else {
        scan_missed(scans_missed(run, errors, (count - 1) as nat), errors[count - 1])
    }
}

} // verus!
