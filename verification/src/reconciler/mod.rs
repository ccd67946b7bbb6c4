//! The reconciler: which materializations it works on, in which order of steps,
//! and what it makes of the outcome.

pub mod current;
pub mod job;
pub mod laws;
pub mod run;

use crate::backend::BackendEndpoint;
use crate::duration::{Duration, MAX_NANOS, NANOS_PER_MILLI};
use crate::ids::{self, MaterializationId};
use crate::instance::{InstanceRecord, InstanceState, WorkloadClassVersionRef};
use crate::materialization::{
    CompleteWakeReconciliationRequest, CompleteWakeRequest,
    DeleteMaterializationReconciliationRequest, FinalizeSleepReconciliationRequest,
    FinalizeSleepRequest, MaterializationRecord, MaterializationState,
    ReleaseMaterializationReconciliationLeaseRequest, RenderedObjectRef,
    RenewMaterializationReconciliationLeaseRequest,
};
use crate::materializer::{ClientErrorKind, ClientErrorView, KubernetesClientError};
use crate::runtime_work::{MaterializationWorkStatus, RecordMaterializationFailure};
use crate::store::{StoreError, StoreErrorView};
use crate::text::{self, decimal_text, same_text};
use crate::workload::RenderedExclusivityKey;
use vstd::prelude::*;
use vstd::string::*;
use vstd::utf8::*;

verus! {

/// The event that tells what became of a materialization.
pub const EVENT_MATERIALIZATION_RECONCILIATION: &'static str =
    "runtime.materialization.reconciliation";

// ---------------------------------------------------------------------------
// Configuration
// ---------------------------------------------------------------------------
/// How the reconciler works.
#[derive(Clone, Debug, PartialEq, Eq)]
pub struct MaterializationReconcilerConfig {
    pub owner: String,
    pub interval: Duration,
    pub lease_ttl: Duration,
    pub batch_size: usize,
    pub concurrency_limit: usize,
}

impl MaterializationReconcilerConfig {
    /// The usual settings for an owner: a scan every second, leases of a minute,
    /// at most thirty-two candidates a scan and four at a time.
    pub fn for_owner(owner: String) -> (config: MaterializationReconcilerConfig)
        ensures
            config.owner == owner,
            config.interval@ == 1_000_000_000,
            config.lease_ttl@ == 60_000_000_000,
            config.batch_size == 32,
            config.concurrency_limit == 4,
    {
        MaterializationReconcilerConfig {
            owner,
            interval: Duration::from_secs(1),
            lease_ttl: Duration::from_secs(60),
            batch_size: 32,
            concurrency_limit: 4,
        }
    }
}

/// The name of the owner that a process is, from its number and the time.
pub fn owner_name(process_id: u32, unix_millis: u64) -> (owner: String)
    ensures
        owner@ == "pid-"@ + text::decimal(process_id as nat) + "-"@ + text::decimal(
            unix_millis as nat,
        ),
{
    "pid-".to_owned().concat(decimal_text(process_id as u64).as_str()).concat("-").concat(
        decimal_text(unix_millis).as_str(),
    )
}

/// How many values fit in sixty-four bits.
pub const WORD_VALUES: u128 = 18_446_744_073_709_551_616;

/// The factor by which a hash grows.
pub const HASH_FACTOR: u64 = 0x0000_0100_0000_01b3;

/// One byte more in a hash.
pub open spec fn hash_step(hash: u64, byte: u8) -> u64 {
    (((hash ^ (byte as u64)) as nat * HASH_FACTOR as nat) % WORD_VALUES as nat) as u64
}

/// The hash of the first `count` bytes.
pub open spec fn hash_of(bytes: Seq<u8>, count: nat) -> u64
    decreases count,
{
    if count == 0 || count > bytes.len() {
        0xcbf2_9ce4_8422_2325u64
    } else {
        hash_step(hash_of(bytes, (count - 1) as nat), bytes[count - 1])
    }
}

fn add_to_hash(hash: u64, byte: u8) -> (result: u64)
    ensures
        result == hash_step(hash, byte),
{
    let mixed: u64 = hash ^ (byte as u64);
    proof {
        assert(mixed as nat * HASH_FACTOR as nat <= u64::MAX as nat * HASH_FACTOR as nat)
            by (nonlinear_arith)
            requires
                mixed <= u64::MAX,
        ;
    }
    let product: u128 = (mixed as u128) * (HASH_FACTOR as u128);
    (product % WORD_VALUES) as u64
}

/// A number that stays with the name of an owner.
pub fn stable_owner_hash(owner: &str) -> (hash: u64)
    ensures
        hash == owner_hash(owner@),
{
    let bytes = owner.as_bytes();
    let mut hash: u64 = 0xcbf2_9ce4_8422_2325u64;
    let mut at: usize = 0;
    while at < bytes.len()
        invariant
            at <= bytes@.len(),
            bytes@ == owner.spec_bytes(),
            hash == hash_of(bytes@, at as nat),
        decreases bytes@.len() - at,
    {
        hash = add_to_hash(hash, bytes[at]);
        at = at + 1;
    }
    hash
}

/// The number of milliseconds that jitter stays below: a fifth of the interval,
/// as a number of sixty-four bits.
pub open spec fn jitter_millis(interval: nat) -> nat {
    interval / 5 / NANOS_PER_MILLI as nat % WORD_VALUES as nat
}

/// What an owner's scans are late by: less than a fifth of the interval, and
/// nothing where that is no time at all.
pub open spec fn jitter_of(interval: nat, hash: u64) -> nat {
    if interval / 5 == 0 {
        0
    } else {
        (hash as nat % jitter_millis(interval)) * NANOS_PER_MILLI as nat
    }
}

/// The number that stays with the name of an owner.
pub open spec fn owner_hash(owner: Seq<char>) -> u64 {
    hash_of(encode_utf8(owner), encode_utf8(owner).len())
}

/// The time between two scans of an owner. Owners that start together drift
/// apart.
pub fn interval_with_jitter(config: &MaterializationReconcilerConfig) -> (interval: Duration)
    requires
        config.interval@ / 5 == 0 || jitter_millis(config.interval@) > 0,
        config.interval@ + jitter_of(config.interval@, owner_hash(config.owner@)) <= MAX_NANOS,
    ensures
        interval@ == config.interval@ + jitter_of(config.interval@, owner_hash(config.owner@)),
{
    let bound = config.interval.divided_by(5);
    if bound.is_zero() {
        return config.interval;
    }
    let millis: u64 = (bound.as_millis() % WORD_VALUES) as u64;
    let jitter: u64 = stable_owner_hash(config.owner.as_str()) % millis;
    config.interval.plus(Duration::from_millis(jitter))
}

/// Jitter never amounts to a fifth of the interval.
pub proof fn law_jitter_is_small(interval: nat, hash: u64)
    requires
        interval / 5 == 0 || jitter_millis(interval) > 0,
    ensures
        interval / 5 > 0 ==> jitter_of(interval, hash) < interval / 5,
        interval / 5 == 0 ==> jitter_of(interval, hash) == 0,
{
    if interval / 5 > 0 {
        let millis = jitter_millis(interval);
        let whole = interval / 5 / NANOS_PER_MILLI as nat;
        assert(millis <= whole);
        assert(hash as nat % millis < millis);
        assert((hash as nat % millis) * NANOS_PER_MILLI < whole * NANOS_PER_MILLI)
            by (nonlinear_arith)
            requires
                hash as nat % millis < millis,
                millis <= whole,
        ;
        assert(whole * NANOS_PER_MILLI <= interval / 5);
    }
}

/// How often an owner looks for work, by its interval and its hash.
pub open spec fn scan_interval(interval: nat, hash: u64) -> nat {
    let period = interval + jitter_of(interval, hash);
    if period >= 10 * NANOS_PER_MILLI {
        period
    } else {
        10 * NANOS_PER_MILLI as nat
    }
}

/// How often the owner looks for work: its interval, and at least ten
/// milliseconds.
pub fn scan_period(config: &MaterializationReconcilerConfig) -> (period: Duration)
    requires
        config.interval@ / 5 == 0 || jitter_millis(config.interval@) > 0,
        config.interval@ + jitter_of(config.interval@, owner_hash(config.owner@)) <= MAX_NANOS,
    ensures
        period@ == scan_interval(config.interval@, owner_hash(config.owner@)),
{
    interval_with_jitter(config).longest(Duration::from_millis(10))
}

/// How often a lease of a length is renewed.
pub open spec fn heartbeat_of(lease_ttl: nat) -> nat {
    if lease_ttl / 3 >= NANOS_PER_MILLI {
        lease_ttl / 3
    } else {
        NANOS_PER_MILLI as nat
    }
}

/// How often a lease is renewed: three times in its life, and not more often than
/// every millisecond.
pub fn heartbeat_period(lease_ttl: Duration) -> (period: Duration)
    ensures
        period@ == heartbeat_of(lease_ttl@),
{
    lease_ttl.divided_by(3).longest(Duration::from_millis(1))
}

/// A lease is renewed well before it ends: even when one renewal is missed, the
/// next comes in time.
pub proof fn law_heartbeat_outpaces_lease(lease_ttl: nat)
    requires
        lease_ttl >= 3 * NANOS_PER_MILLI,
    ensures
        lease_ttl / 3 >= NANOS_PER_MILLI,
        2 * (lease_ttl / 3) < lease_ttl,
        2 * heartbeat_of(lease_ttl) < lease_ttl,
{
}

/// A row of scans after one more.
pub open spec fn scans_counted(failures: u32, succeeded: bool) -> (u32, bool) {
    (
        if succeeded {
            0
        } else if failures < u32::MAX {
            (failures + 1) as u32
        } else {
            u32::MAX
        },
        !succeeded && failures >= 4,
    )
}

/// The state of a row of scans: how many failed one after another, and whether
/// that is too many.
pub fn after_scan(failures: u32, succeeded: bool) -> (next: (u32, bool))
    ensures
        next == scans_counted(failures, succeeded),
{
    if succeeded {
        return (0, false);
    }
    let count: u32 = failures.saturating_add(1);
    (count, count >= 5)
}

// ---------------------------------------------------------------------------
// Which materializations are worked on
// ---------------------------------------------------------------------------
/// The jobs that run, each with the state of its materialization.
pub type JobsView = Seq<(Seq<char>, MaterializationState)>;

/// How many jobs wake an instance.
pub open spec fn waking_jobs(jobs: JobsView) -> nat
    decreases jobs.len(),
{
    if jobs.len() == 0 {
        0
    } else {
        waking_jobs(jobs.drop_last()) + if jobs.last().1 == MaterializationState::Pending {
            1nat
        } else {
            0nat
        }
    }
}

/// Some job works on a materialization.
pub open spec fn works_on(jobs: JobsView, id: Seq<char>) -> bool {
    exists|i: int| 0 <= i < jobs.len() && (#[trigger] jobs[i]).0 == id
}

/// What holds of the jobs at any time: there are no more than the capacity allows,
/// wakes leave one place free, and no materialization is worked on twice.
pub open spec fn jobs_fit(jobs: JobsView, capacity: nat) -> bool {
    &&& capacity >= 2
    &&& jobs.len() <= capacity
    &&& waking_jobs(jobs) < capacity
    &&& forall|i: int, j: int|
        #![trigger jobs[i], jobs[j]]
        0 <= i < j < jobs.len() ==> jobs[i].0 != jobs[j].0
}

/// A candidate may start: there is room, nobody works on it, and a wake leaves one
/// place free.
pub open spec fn may_start(
    jobs: JobsView,
    capacity: nat,
    id: Seq<char>,
    state: MaterializationState,
) -> bool {
    &&& jobs.len() < capacity
    &&& !works_on(jobs, id)
    &&& state == MaterializationState::Pending ==> waking_jobs(jobs) < capacity - 1
}

/// How many jobs run at a time, at least two.
pub open spec fn capacity_of(concurrency_limit: nat) -> nat {
    if concurrency_limit >= 2 {
        concurrency_limit
    } else {
        2
    }
}

/// The first place, from a place on, of the job on a materialization.
pub open spec fn job_place(jobs: JobsView, id: Seq<char>, from: int) -> Option<int>
    decreases jobs.len() - from,
{
    if from < 0 || from >= jobs.len() {
        None
    } else if jobs[from].0 == id {
        Some(from)
    } else {
        job_place(jobs, id, from + 1)
    }
}

/// The jobs once the one on a materialization is done.
pub open spec fn without_job(jobs: JobsView, id: Seq<char>) -> JobsView {
    match job_place(jobs, id, 0) {
        Some(at) => jobs.remove(at),
        None => jobs,
    }
}

proof fn lemma_waking_after_removal(jobs: JobsView, at: int)
    requires
        0 <= at < jobs.len(),
    ensures
        waking_jobs(jobs.remove(at)) <= waking_jobs(jobs),
    decreases jobs.len(),
{
    if at == jobs.len() - 1 {
        assert(jobs.remove(at) =~= jobs.drop_last());
    } else {
        assert(jobs.remove(at).drop_last() =~= jobs.drop_last().remove(at));
        assert(jobs.remove(at).last() == jobs.last());
        lemma_waking_after_removal(jobs.drop_last(), at);
    }
}

proof fn lemma_job_place(jobs: JobsView, id: Seq<char>, from: int)
    requires
        0 <= from <= jobs.len(),
    ensures
        match job_place(jobs, id, from) {
            Some(at) => from <= at < jobs.len() && jobs[at].0 == id,
            None => forall|i: int| from <= i < jobs.len() ==> (#[trigger] jobs[i]).0 != id,
        },
    decreases jobs.len() - from,
{
    if from < jobs.len() && jobs[from].0 != id {
        lemma_job_place(jobs, id, from + 1);
    }
}

/// The end of one job leaves every other.
pub proof fn lemma_other_jobs_stay(jobs: JobsView, id: Seq<char>, other: Seq<char>)
    requires
        id != other,
    ensures
        works_on(without_job(jobs, id), other) == works_on(jobs, other),
{
    lemma_job_place(jobs, id, 0);
    if let Some(at) = job_place(jobs, id, 0) {
        let rest = jobs.remove(at);
        if works_on(jobs, other) {
            let i = choose|i: int| 0 <= i < jobs.len() && (#[trigger] jobs[i]).0 == other;
            assert(rest[if i < at { i } else { i - 1 }].0 == other);
        }
        if works_on(rest, other) {
            let i = choose|i: int| 0 <= i < rest.len() && (#[trigger] rest[i]).0 == other;
            assert(jobs[if i < at { i } else { i + 1 }].0 == other);
        }
    }
}

/// Starting a job and finishing one both keep what holds of the jobs, and a job
/// that is done is worked on no more.
pub proof fn law_jobs_keep_fitting(
    jobs: JobsView,
    capacity: nat,
    id: Seq<char>,
    state: MaterializationState,
)
    requires
        jobs_fit(jobs, capacity),
    ensures
        may_start(jobs, capacity, id, state) ==> jobs_fit(jobs.push((id, state)), capacity),
        jobs_fit(without_job(jobs, id), capacity),
        !works_on(without_job(jobs, id), id),
{
    let longer = jobs.push((id, state));
    assert(longer.drop_last() =~= jobs);
    lemma_job_place(jobs, id, 0);
    if let Some(at) = job_place(jobs, id, 0) {
        lemma_waking_after_removal(jobs, at);
        let rest = jobs.remove(at);
        assert forall|i: int, j: int|
            #![trigger rest[i], rest[j]]
            0 <= i < j < rest.len() implies rest[i].0 != rest[j].0 by {
            let p = if i < at {
                i
            } else {
                i + 1
            };
            let q = if j < at {
                j
            } else {
                j + 1
            };
            assert(rest[i] == jobs[p] && rest[j] == jobs[q]);
        }
        assert forall|i: int| 0 <= i < rest.len() implies (#[trigger] rest[i]).0 != id by {
            let p = if i < at {
                i
            } else {
                i + 1
            };
            assert(rest[i] == jobs[p]);
            if p < at {
                assert(jobs[p].0 != jobs[at].0);
            } else {
                assert(jobs[at].0 != jobs[p].0);
            }
        }
    }
}

/// Wakes never keep a materialization from being deleted: as long as every job
/// wakes an instance, there is room for a deletion.
pub proof fn law_wakes_leave_room_for_deletions(
    jobs: JobsView,
    capacity: nat,
    id: Seq<char>,
    state: MaterializationState,
)
    requires
        jobs_fit(jobs, capacity),
        forall|i: int|
            0 <= i < jobs.len() ==> (#[trigger] jobs[i]).1 == MaterializationState::Pending,
        !works_on(jobs, id),
        state != MaterializationState::Pending,
    ensures
        may_start(jobs, capacity, id, state),
{
    lemma_all_waking(jobs);
}

proof fn lemma_all_waking(jobs: JobsView)
    requires
        forall|i: int|
            0 <= i < jobs.len() ==> (#[trigger] jobs[i]).1 == MaterializationState::Pending,
    ensures
        waking_jobs(jobs) == jobs.len(),
    decreases jobs.len(),
{
    if jobs.len() > 0 {
        assert(jobs[jobs.len() - 1].1 == MaterializationState::Pending);
        assert forall|i: int| 0 <= i < jobs.drop_last().len() implies (
        #[trigger] jobs.drop_last()[i]).1 == MaterializationState::Pending by {
            assert(jobs[i] == jobs.drop_last()[i]);
        }
        lemma_all_waking(jobs.drop_last());
    }
}

/// The jobs of a reconciler.
pub struct ActiveJobs {
    jobs: Vec<(MaterializationId, MaterializationState)>,
    capacity: usize,
}

spec fn job_views(jobs: Seq<(MaterializationId, MaterializationState)>) -> JobsView {
    Seq::new(jobs.len(), |i: int| (jobs[i].0@, jobs[i].1))
}

/// The mathematical model of [`ActiveJobs`].
#[verifier::ext_equal]
pub struct ActiveView {
    pub jobs: JobsView,
    /// How many jobs run at a time.
    pub capacity: nat,
}

impl View for ActiveJobs {
    type V = ActiveView;

    closed spec fn view(&self) -> ActiveView {
        ActiveView { jobs: job_views(self.jobs@), capacity: self.capacity as nat }
    }
}

impl ActiveJobs {
    #[verifier::type_invariant]
    spec fn fit(self) -> bool {
        jobs_fit(job_views(self.jobs@), self.capacity as nat)
    }

    /// No jobs yet, and room for so many.
    pub fn new(concurrency_limit: usize) -> (active: ActiveJobs)
        ensures
            active@ == (ActiveView {
                jobs: JobsView::empty(),
                capacity: capacity_of(concurrency_limit as nat),
            }),
    {
        let capacity: usize = if concurrency_limit >= 2 {
            concurrency_limit
        } else {
            2
        };
        let jobs: Vec<(MaterializationId, MaterializationState)> = Vec::new();
        assert(job_views(jobs@) =~= JobsView::empty());
        ActiveJobs { jobs, capacity }
    }

    /// How many jobs run.
    pub fn len(&self) -> (length: usize)
        ensures
            length == self@.jobs.len(),
            jobs_fit(self@.jobs, self@.capacity),
    {
        proof {
            use_type_invariant(self);
        }
        self.jobs.len()
    }

    fn counts(&self, id: &MaterializationId) -> (counts: (usize, bool))
        ensures
            counts.0 == waking_jobs(self@.jobs),
            counts.1 == works_on(self@.jobs, id@),
    {
        let mut waking: usize = 0;
        let mut found = false;
        let mut at: usize = 0;
        assert(self@.jobs.take(0) =~= JobsView::empty());
        while at < self.jobs.len()
            invariant
                at <= self.jobs@.len(),
                self@.jobs == job_views(self.jobs@),
                waking == waking_jobs(self@.jobs.take(at as int)),
                waking <= at,
                found == works_on(self@.jobs.take(at as int), id@),
            decreases self.jobs@.len() - at,
        {
            let ghost before = self@.jobs.take(at as int);
            let ghost now = self@.jobs.take(at + 1);
            assert(now.drop_last() =~= before);
            assert(now.last() == (self.jobs@[at as int].0@, self.jobs@[at as int].1));
            if self.jobs[at].1 == MaterializationState::Pending {
                waking = waking + 1;
            }
            if same_text(self.jobs[at].0.as_str(), id.as_str()) {
                found = true;
                assert(now[at as int].0 == id@);
            }
            proof {
                if works_on(before, id@) {
                    let i = choose|i: int| 0 <= i < before.len() && (#[trigger] before[i]).0 == id@;
                    assert(now[i].0 == id@);
                }
                if works_on(now, id@) {
                    let i = choose|i: int| 0 <= i < now.len() && (#[trigger] now[i]).0 == id@;
                    if i < at {
                        assert(before[i].0 == id@);
                    }
                }
            }
            at = at + 1;
        }
        assert(self@.jobs.take(at as int) =~= self@.jobs);
        (waking, found)
    }

    /// Starts a job on a candidate, if it may start.
    pub fn start(&mut self, id: &MaterializationId, state: MaterializationState) -> (started: bool)
        ensures
            started == may_start(old(self)@.jobs, old(self)@.capacity, id@, state),
            final(self)@ == if started {
                ActiveView { jobs: old(self)@.jobs.push((id@, state)), ..old(self)@ }
            } else {
                old(self)@
            },
    {
        proof {
            use_type_invariant(&*self);
            law_jobs_keep_fitting(self@.jobs, self@.capacity, id@, state);
        }
        let (waking, found) = self.counts(id);
        if self.jobs.len() >= self.capacity || found || (state == MaterializationState::Pending
            && waking >= self.capacity - 1) {
            return false;
        }
        let capacity: usize = self.capacity;
        let ghost before = self.jobs@;
        let mut jobs: Vec<(MaterializationId, MaterializationState)> = Vec::new();
        assert(job_views(jobs@) =~= JobsView::empty());
        std::mem::swap(&mut jobs, &mut self.jobs);
        jobs.push((id.duplicate(), state));
        assert(job_views(jobs@) =~= job_views(before).push((id@, state)));
        *self = ActiveJobs { jobs, capacity };
        true
    }

    /// Forgets the job on a materialization.
    pub fn finish(&mut self, id: &MaterializationId)
        ensures
            final(self)@ == (ActiveView { jobs: without_job(old(self)@.jobs, id@), ..old(self)@ }),
    {
        proof {
            use_type_invariant(&*self);
            law_jobs_keep_fitting(self@.jobs, self@.capacity, id@, MaterializationState::Ready);
        }
        let capacity: usize = self.capacity;
        let ghost whole = self@.jobs;
        let mut at: usize = 0;
        while at < self.jobs.len()
            invariant
                at <= self.jobs@.len(),
                whole == self@.jobs,
                self@ == old(self)@,
                self@.jobs == job_views(self.jobs@),
                capacity == self.capacity,
                capacity == old(self)@.capacity,
                jobs_fit(without_job(whole, id@), capacity as nat),
                job_place(whole, id@, 0) == job_place(whole, id@, at as int),
            decreases self.jobs@.len() - at,
        {
            assert(whole[at as int].0 == self.jobs@[at as int].0@);
            if same_text(self.jobs[at].0.as_str(), id.as_str()) {
                let ghost before = self.jobs@;
                let mut jobs: Vec<(MaterializationId, MaterializationState)> = Vec::new();
                assert(job_views(jobs@) =~= JobsView::empty());
                std::mem::swap(&mut jobs, &mut self.jobs);
                jobs.remove(at);
                assert(job_views(jobs@) =~= job_views(before).remove(at as int));
                *self = ActiveJobs { jobs, capacity };
                return;
            }
            at = at + 1;
        }
    }
}

// ---------------------------------------------------------------------------
// How much time there is
// ---------------------------------------------------------------------------
/// The time of an operation that has no deadline of its own, in seconds.
pub const DEFAULT_OPERATION_SECONDS: u64 = 600;

/// What is left of an operation's time: what the database says, less what the
/// question took. It can stop early; work never receives additional lifetime from
/// a slow answer.
pub open spec fn budget_outcome(
    status: Option<MaterializationWorkStatus>,
    request_elapsed: nat,
) -> Result<nat, StoreErrorView> {
    let granted = match status {
        Some(status) if status.operation_deadline_unix_millis > 0 => {
            match status.operation_remaining {
                Some(remaining) => Ok(remaining@),
                None => Err(
                    StoreErrorView::Internal {
                        message: "persisted operation deadline is missing its database-relative budget"@,
                    },
                ),
            }
        },
        _ => Ok((DEFAULT_OPERATION_SECONDS * 1_000_000_000) as nat),
    };
    match granted {
        Err(error) => Err(error),
        Ok(remaining) => if remaining >= request_elapsed {
            Ok((remaining - request_elapsed) as nat)
        } else {
            Ok(0)
        },
    }
}

/// Settles how much time an operation has.
pub fn operation_budget(
    status: &Option<MaterializationWorkStatus>,
    request_elapsed: Duration,
) -> (result: Result<Duration, MaterializationReconcileError>)
    ensures
        match result {
            Ok(budget) => budget_outcome(*status, request_elapsed@) == Ok::<nat, StoreErrorView>(
                budget@,
            ),
            Err(error) => error matches MaterializationReconcileError::Store(error)
                && budget_outcome(*status, request_elapsed@) == Err::<nat, StoreErrorView>(error@),
        },
{
    let remaining = match status {
        Some(status) if status.operation_deadline_unix_millis > 0 => {
            match status.operation_remaining {
                Some(remaining) => remaining,
                None => {
                    return Err(
                        MaterializationReconcileError::Store(
                            StoreError::internal(
                                "persisted operation deadline is missing its database-relative budget",
                            ),
                        ),
                    );
                },
            }
        },
        _ => Duration::from_secs(DEFAULT_OPERATION_SECONDS),
    };
    Ok(remaining.saturating_sub(request_elapsed))
}

/// A slow answer never lengthens an operation: the longer the question took, the
/// less is left, and never more than the database granted.
pub proof fn law_budget_only_shrinks(
    status: Option<MaterializationWorkStatus>,
    elapsed: nat,
    longer: nat,
)
    requires
        elapsed <= longer,
    ensures
        match (budget_outcome(status, elapsed), budget_outcome(status, longer)) {
            (Ok(early), Ok(late)) => late <= early && early <= budget_outcome(status, 0)->Ok_0,
            (Err(early), Err(late)) => early == late,
            _ => false,
        },
{
}

// ---------------------------------------------------------------------------
// What went wrong
// ---------------------------------------------------------------------------
/// Why the materializer stopped.
#[derive(Clone, Debug, PartialEq, Eq)]
pub enum MaterializerError {
    InvalidManifest { message: String },
    Apply { source: KubernetesClientError },
    Delete { source: KubernetesClientError },
    PvcBoundWait { source: KubernetesClientError },
    ReadinessWait { source: KubernetesClientError },
}

/// Why a projection is not as it should be.
#[allow(inconsistent_fields)]
#[derive(Clone, Debug, PartialEq, Eq)]
pub enum ProjectionError {
    MissingManifest,
    OwnershipConflict,
    Inspect { source: KubernetesClientError },
    Apply { source: MaterializerError },
    Delete { source: MaterializerError },
    Readiness { source: MaterializerError },
    Incomplete,
}

/// Why a materialization was not reconciled.
#[derive(Clone, Debug, PartialEq, Eq)]
pub enum MaterializationReconcileError {
    Store(StoreError),
    Materializer(MaterializerError),
    Projection(ProjectionError),
    Render(String),
    StaleDesiredRefs,
    LeaseLost,
    Cancelled,
    Deadline,
}

/// The mathematical model of a [`MaterializerError`].
#[verifier::ext_equal]
pub enum MaterializerErrorView {
    InvalidManifest { message: Seq<char> },
    Apply { source: ClientErrorView },
    Delete { source: ClientErrorView },
    PvcBoundWait { source: ClientErrorView },
    ReadinessWait { source: ClientErrorView },
}

impl View for MaterializerError {
    type V = MaterializerErrorView;

    open spec fn view(&self) -> MaterializerErrorView {
        match self {
            MaterializerError::InvalidManifest { message } => {
                MaterializerErrorView::InvalidManifest { message: message@ }
            },
            MaterializerError::Apply { source } => MaterializerErrorView::Apply {
                source: source@,
            },
            MaterializerError::Delete { source } => MaterializerErrorView::Delete {
                source: source@,
            },
            MaterializerError::PvcBoundWait { source } => MaterializerErrorView::PvcBoundWait {
                source: source@,
            },
            MaterializerError::ReadinessWait { source } => MaterializerErrorView::ReadinessWait {
                source: source@,
            },
        }
    }
}

/// The mathematical model of a [`ProjectionError`].
#[allow(inconsistent_fields)]
#[verifier::ext_equal]
pub enum ProjectionErrorView {
    MissingManifest,
    OwnershipConflict,
    Inspect { source: ClientErrorView },
    Apply { source: MaterializerErrorView },
    Delete { source: MaterializerErrorView },
    Readiness { source: MaterializerErrorView },
    Incomplete,
}

impl View for ProjectionError {
    type V = ProjectionErrorView;

    open spec fn view(&self) -> ProjectionErrorView {
        match self {
            ProjectionError::MissingManifest => ProjectionErrorView::MissingManifest,
            ProjectionError::OwnershipConflict => ProjectionErrorView::OwnershipConflict,
            ProjectionError::Inspect { source } => ProjectionErrorView::Inspect {
                source: source@,
            },
            ProjectionError::Apply { source } => ProjectionErrorView::Apply { source: source@ },
            ProjectionError::Delete { source } => ProjectionErrorView::Delete { source: source@ },
            ProjectionError::Readiness { source } => ProjectionErrorView::Readiness {
                source: source@,
            },
            ProjectionError::Incomplete => ProjectionErrorView::Incomplete,
        }
    }
}

/// The mathematical model of a [`MaterializationReconcileError`].
#[verifier::ext_equal]
pub enum ReconcileErrorView {
    Store(StoreErrorView),
    Materializer(MaterializerErrorView),
    Projection(ProjectionErrorView),
    Render(Seq<char>),
    StaleDesiredRefs,
    LeaseLost,
    Cancelled,
    Deadline,
}

impl View for MaterializationReconcileError {
    type V = ReconcileErrorView;

    open spec fn view(&self) -> ReconcileErrorView {
        match self {
            MaterializationReconcileError::Store(error) => ReconcileErrorView::Store(error@),
            MaterializationReconcileError::Materializer(error) => {
                ReconcileErrorView::Materializer(error@)
            },
            MaterializationReconcileError::Projection(error) => ReconcileErrorView::Projection(
                error@,
            ),
            MaterializationReconcileError::Render(message) => ReconcileErrorView::Render(message@),
            MaterializationReconcileError::StaleDesiredRefs => ReconcileErrorView::StaleDesiredRefs,
            MaterializationReconcileError::LeaseLost => ReconcileErrorView::LeaseLost,
            MaterializationReconcileError::Cancelled => ReconcileErrorView::Cancelled,
            MaterializationReconcileError::Deadline => ReconcileErrorView::Deadline,
        }
    }
}

/// The cluster's answer is final.
pub open spec fn final_answer(source: KubernetesClientError) -> bool {
    source@.kind == ClientErrorKind::Permanent
}

/// Trying again will not help the materializer.
pub open spec fn materializer_permanent(error: MaterializerError) -> bool {
    match error {
        MaterializerError::InvalidManifest { .. } => true,
        MaterializerError::Apply { source } => final_answer(source),
        MaterializerError::Delete { source } => final_answer(source),
        MaterializerError::PvcBoundWait { .. } => false,
        MaterializerError::ReadinessWait { .. } => false,
    }
}

/// Trying again will not help.
pub open spec fn reconcile_permanent(error: MaterializationReconcileError) -> bool {
    match error {
        MaterializationReconcileError::Render(_) => true,
        MaterializationReconcileError::StaleDesiredRefs => true,
        MaterializationReconcileError::Store(StoreError::InvalidArgument { .. }) => true,
        MaterializationReconcileError::Store(StoreError::NotFound { .. }) => true,
        MaterializationReconcileError::Materializer(error) => materializer_permanent(error),
        MaterializationReconcileError::Projection(ProjectionError::Apply { source }) => {
            materializer_permanent(source)
        },
        MaterializationReconcileError::Projection(ProjectionError::Delete { source }) => {
            materializer_permanent(source)
        },
        MaterializationReconcileError::Projection(ProjectionError::MissingManifest) => true,
        MaterializationReconcileError::Projection(ProjectionError::OwnershipConflict) => true,
        MaterializationReconcileError::Projection(ProjectionError::Inspect { source }) => {
            final_answer(source)
        },
        _ => false,
    }
}

fn answer_is_final(source: &KubernetesClientError) -> (result: bool)
    ensures
        result == final_answer(*source),
{
    !source.is_retryable() && !source.outcome_uncertain()
}

fn is_materializer_permanent(error: &MaterializerError) -> (result: bool)
    ensures
        result == materializer_permanent(*error),
{
    match error {
        MaterializerError::InvalidManifest { .. } => true,
        MaterializerError::Apply { source } => answer_is_final(source),
        MaterializerError::Delete { source } => answer_is_final(source),
        MaterializerError::PvcBoundWait { .. } => false,
        MaterializerError::ReadinessWait { .. } => false,
    }
}

/// The sentence that tells an operator why a materialization was not reconciled.
/// `source` is the sentence of the error underneath, where there is one.
pub open spec fn reconcile_error_text(
    error: MaterializationReconcileError,
    source: Seq<char>,
) -> Seq<char> {
    match error {
        MaterializationReconcileError::Store(_) => "store: "@ + source,
        MaterializationReconcileError::Materializer(_) => "materializer: "@ + source,
        MaterializationReconcileError::Projection(_) => "projection: "@ + source,
        MaterializationReconcileError::Render(message) => "render: "@ + message@,
        MaterializationReconcileError::StaleDesiredRefs => {
            "rendered object refs no longer match persisted refs"@
        },
        MaterializationReconcileError::Cancelled => "reconciliation cancelled"@,
        MaterializationReconcileError::Deadline => "operation deadline expired"@,
        MaterializationReconcileError::LeaseLost => "reconciliation lease was lost"@,
    }
}

impl MaterializationReconcileError {
    /// Trying again will not help.
    pub fn permanent(&self) -> (result: bool)
        ensures
            result == reconcile_permanent(*self),
    {
        match self {
            MaterializationReconcileError::Render(_) => true,
            MaterializationReconcileError::StaleDesiredRefs => true,
            MaterializationReconcileError::Store(StoreError::InvalidArgument { .. }) => true,
            MaterializationReconcileError::Store(StoreError::NotFound { .. }) => true,
            MaterializationReconcileError::Materializer(error) => is_materializer_permanent(error),
            MaterializationReconcileError::Projection(ProjectionError::Apply { source }) => {
                is_materializer_permanent(source)
            },
            MaterializationReconcileError::Projection(ProjectionError::Delete { source }) => {
                is_materializer_permanent(source)
            },
            MaterializationReconcileError::Projection(ProjectionError::MissingManifest) => true,
            MaterializationReconcileError::Projection(ProjectionError::OwnershipConflict) => true,
            MaterializationReconcileError::Projection(ProjectionError::Inspect { source }) => {
                answer_is_final(source)
            },
            _ => false,
        }
    }

    /// The sentence that tells an operator why a materialization was not
    /// reconciled.
    pub fn to_text(&self, source: &str) -> (sentence: String)
        ensures
            sentence@ == reconcile_error_text(*self, source@),
    {
        match self {
            MaterializationReconcileError::Store(_) => "store: ".to_owned().concat(source),
            MaterializationReconcileError::Materializer(_) => {
                "materializer: ".to_owned().concat(source)
            },
            MaterializationReconcileError::Projection(_) => {
                "projection: ".to_owned().concat(source)
            },
            MaterializationReconcileError::Render(message) => {
                "render: ".to_owned().concat(message.as_str())
            },
            MaterializationReconcileError::StaleDesiredRefs => {
                "rendered object refs no longer match persisted refs".to_owned()
            },
            MaterializationReconcileError::Cancelled => "reconciliation cancelled".to_owned(),
            MaterializationReconcileError::Deadline => "operation deadline expired".to_owned(),
            MaterializationReconcileError::LeaseLost => {
                "reconciliation lease was lost".to_owned()
            },
        }
    }
}

/// An error that leaves open whether the cluster changed is never permanent.
pub proof fn law_uncertain_is_never_permanent(error: MaterializerError)
    ensures
        match error {
            MaterializerError::Apply { source } => source@.kind == ClientErrorKind::Uncertain
                ==> !materializer_permanent(error),
            MaterializerError::Delete { source } => source@.kind == ClientErrorKind::Uncertain
                ==> !materializer_permanent(error),
            _ => true,
        },
{
}

// ---------------------------------------------------------------------------
// What comes next
// ---------------------------------------------------------------------------
/// What to do with a claimed materialization.
#[derive(Clone, Copy, Debug, PartialEq, Eq, Structural)]
pub enum WorkKind {
    Wake,
    Delete,
    Nothing,
}

/// The work that a state asks for.
pub open spec fn work_of(state: MaterializationState) -> WorkKind {
    match state {
        MaterializationState::Pending => WorkKind::Wake,
        MaterializationState::Deleting => WorkKind::Delete,
        _ => WorkKind::Nothing,
    }
}

/// What the state of a claimed materialization asks for.
pub fn work_for(state: MaterializationState) -> (work: WorkKind)
    ensures
        work == work_of(state),
{
    match state {
        MaterializationState::Pending => WorkKind::Wake,
        MaterializationState::Deleting => WorkKind::Delete,
        _ => WorkKind::Nothing,
    }
}

/// The next step of a wake.
#[derive(Clone, Copy, Debug, PartialEq, Eq, Structural)]
pub enum PendingStep {
    /// Nobody wants the instance any more: remove what is there.
    Remove,
    /// The instance is not waking.
    Reject,
    /// Bring the instance up.
    Project,
}

/// The next step of a wake, from what the store says of the instance now.
pub open spec fn pending_step_of(
    instance: Option<(InstanceState, u64)>,
    materialization_generation: u64,
) -> PendingStep {
    match instance {
        None => PendingStep::Remove,
        Some((state, generation)) => if generation != materialization_generation || state
            == InstanceState::Deleting || state == InstanceState::Deleted {
            PendingStep::Remove
        } else if state != InstanceState::Waking {
            PendingStep::Reject
        } else {
            PendingStep::Project
        },
    }
}

/// The state and the revision of an instance that may be gone.
pub open spec fn standing(instance: Option<&InstanceRecord>) -> Option<(InstanceState, u64)> {
    match instance {
        Some(instance) => Some((instance.state, instance.generation@)),
        None => None,
    }
}

/// The next step of a wake.
pub fn pending_step(instance: Option<&InstanceRecord>, materialization: &MaterializationRecord) -> (step:
    PendingStep)
    ensures
        step == pending_step_of(standing(instance), materialization.instance_generation@),
{
    match instance {
        None => PendingStep::Remove,
        Some(instance) => {
            if !instance.generation.same(materialization.instance_generation) || instance.state
                == InstanceState::Deleting || instance.state == InstanceState::Deleted {
                PendingStep::Remove
            } else if instance.state != InstanceState::Waking {
                PendingStep::Reject
            } else {
                PendingStep::Project
            }
        },
    }
}

/// The error of a wake whose instance is not waking.
pub fn not_waking() -> (error: MaterializationReconcileError)
    ensures
        error matches MaterializationReconcileError::Store(error) && error@ == (
        StoreErrorView::InvalidArgument {
            message: "pending materialization is not attached to waking instance"@,
        }),
{
    MaterializationReconcileError::Store(
        StoreError::invalid_argument(
            "pending materialization is not attached to waking instance",
        ),
    )
}

/// The instance as its objects are rendered: running, in the incarnation that the
/// materialization owns.
pub fn projected_instance(instance: &InstanceRecord, materialization: &MaterializationRecord) -> (projected:
    InstanceRecord)
    ensures
        projected.id@ == instance.id@,
        projected.workload_class.class_id@ == instance.workload_class.class_id@,
        projected.workload_class.version@ == instance.workload_class.version@,
        projected.values@ == instance.values@,
        projected.state == InstanceState::Running,
        projected.generation@ == materialization.projection_generation@,
{
    InstanceRecord {
        id: instance.id.duplicate(),
        workload_class: WorkloadClassVersionRef {
            class_id: instance.workload_class.class_id.duplicate(),
            version: instance.workload_class.version,
        },
        values: instance.values.duplicate(),
        state: InstanceState::Running,
        generation: materialization.projection_generation,
    }
}

/// Two references name one object.
pub open spec fn same_object(left: RenderedObjectRef, right: RenderedObjectRef) -> bool {
    &&& left.api_version@ == right.api_version@
    &&& left.kind@ == right.kind@
    &&& left.namespace@ == right.namespace@
    &&& left.name@ == right.name@
}

/// Two lists name the same objects, one after the other.
pub open spec fn same_objects(left: Seq<RenderedObjectRef>, right: Seq<RenderedObjectRef>) -> bool {
    &&& left.len() == right.len()
    &&& forall|i: int| 0 <= i < left.len() ==> same_object(#[trigger] left[i], right[i])
}

/// Checks that the objects to apply are the very ones that the wake was accepted
/// with.
pub fn validate_desired_refs(desired: &Vec<RenderedObjectRef>, recorded: &Vec<RenderedObjectRef>) -> (result:
    Result<(), MaterializationReconcileError>)
    ensures
        match result {
            Ok(_) => same_objects(desired@, recorded@),
            Err(error) => error is StaleDesiredRefs && !same_objects(desired@, recorded@),
        },
{
    if desired.len() != recorded.len() {
        return Err(MaterializationReconcileError::StaleDesiredRefs);
    }
    let mut at: usize = 0;
    while at < desired.len()
        invariant
            at <= desired.len(),
            desired@.len() == recorded@.len(),
            forall|i: int| 0 <= i < at ==> same_object(#[trigger] desired@[i], recorded@[i]),
        decreases desired.len() - at,
    {
        let left = &desired[at];
        let right = &recorded[at];
        if !(same_text(left.api_version.as_str(), right.api_version.as_str()) && same_text(
            left.kind.as_str(),
            right.kind.as_str(),
        ) && same_text(left.namespace.as_str(), right.namespace.as_str()) && same_text(
            left.name.as_str(),
            right.name.as_str(),
        )) {
            assert(!same_object(desired@[at as int], recorded@[at as int]));
            return Err(MaterializationReconcileError::StaleDesiredRefs);
        }
        at = at + 1;
    }
    Ok(())
}

/// The next step once the objects of a materialization are gone.
#[derive(Clone, Copy, Debug, PartialEq, Eq, Structural)]
pub enum DeletingStep {
    /// The instance has moved on: only the materialization is done with.
    MarkDeleted,
    /// The instance was draining, and now sleeps.
    FinalizeSleep,
}

/// The next step once the objects of a materialization are gone.
///
/// Beginning to sleep leaves the materialization stamped with the running
/// revision and moves the instance on to draining one revision later, so the
/// drain that the materialization belongs to is current exactly when the instance
/// drains one revision past the stamp. Anything else means that the instance has
/// moved on.
pub open spec fn deleting_step_of(
    instance: Option<(InstanceState, u64)>,
    materialization_generation: u64,
) -> DeletingStep {
    match instance {
        Some((InstanceState::Draining, generation)) => if generation == ids::next_generation(
            materialization_generation,
        ) {
            DeletingStep::FinalizeSleep
        } else {
            DeletingStep::MarkDeleted
        },
        _ => DeletingStep::MarkDeleted,
    }
}

/// The next step once the objects of a materialization are gone.
pub fn deleting_step(instance: Option<&InstanceRecord>, materialization: &MaterializationRecord) -> (step:
    DeletingStep)
    ensures
        step == deleting_step_of(standing(instance), materialization.instance_generation@),
{
    match instance {
        None => DeletingStep::MarkDeleted,
        Some(instance) => {
            if instance.state == InstanceState::Draining && instance.generation.same(
                materialization.instance_generation.next(),
            ) {
                DeletingStep::FinalizeSleep
            } else {
                DeletingStep::MarkDeleted
            }
        },
    }
}

/// What to do with the claim once the work on it has ended.
#[derive(Clone, Copy, Debug, PartialEq, Eq, Structural)]
pub enum Settlement {
    /// The work is done, and with it the lease.
    Done,
    /// The lease goes back.
    Release,
    /// The failure is kept; the lease goes back if that did not end it.
    RecordFailure,
}

/// What to do with the claim once the work on it has ended.
pub open spec fn settlement_of(result: Result<(), MaterializationReconcileError>) -> Settlement {
    match result {
        Ok(_) => Settlement::Done,
        Err(MaterializationReconcileError::LeaseLost) => Settlement::Release,
        Err(MaterializationReconcileError::Cancelled) => Settlement::Release,
        Err(_) => Settlement::RecordFailure,
    }
}

/// What to do with the claim once the work on it has ended.
pub fn settle(result: &Result<(), MaterializationReconcileError>) -> (settlement: Settlement)
    ensures
        settlement == settlement_of(*result),
{
    match result {
        Ok(_) => Settlement::Done,
        Err(MaterializationReconcileError::LeaseLost) => Settlement::Release,
        Err(MaterializationReconcileError::Cancelled) => Settlement::Release,
        Err(_) => Settlement::RecordFailure,
    }
}

/// The lease goes back unless a failure was kept: keeping one ends the lease.
pub fn releases_after_failure(recorded: &Result<bool, StoreError>) -> (release: bool)
    ensures
        release == !(recorded matches Ok(kept) && *kept),
{
    match recorded {
        Ok(kept) => !*kept,
        Err(_) => true,
    }
}

/// What a renewal means: the work goes on only under a lease that still holds.
pub fn after_renewal(renewed: Result<bool, StoreError>) -> (result: Result<
    (),
    MaterializationReconcileError,
>)
    ensures
        match renewed {
            Ok(true) => result is Ok,
            Ok(false) => result matches Err(error) && error is LeaseLost,
            Err(source) => result matches Err(MaterializationReconcileError::Store(error)) && error
                == source,
        },
{
    match renewed {
        Ok(true) => Ok(()),
        Ok(false) => Err(MaterializationReconcileError::LeaseLost),
        Err(error) => Err(MaterializationReconcileError::Store(error)),
    }
}

// ---------------------------------------------------------------------------
// Requests under a lease
// ---------------------------------------------------------------------------
fn copied_refs(refs: &Vec<RenderedObjectRef>) -> (copy: Vec<RenderedObjectRef>)
    ensures
        same_objects(copy@, refs@),
{
    let mut copy: Vec<RenderedObjectRef> = Vec::new();
    let mut at: usize = 0;
    while at < refs.len()
        invariant
            at <= refs.len(),
            copy@.len() == at,
            forall|i: int| 0 <= i < at ==> same_object(#[trigger] copy@[i], refs@[i]),
        decreases refs.len() - at,
    {
        copy.push(
            RenderedObjectRef {
                api_version: refs[at].api_version.clone(),
                kind: refs[at].kind.clone(),
                namespace: refs[at].namespace.clone(),
                name: refs[at].name.clone(),
            },
        );
        at = at + 1;
    }
    copy
}

fn copied_keys(keys: &Vec<RenderedExclusivityKey>) -> (copy: Vec<RenderedExclusivityKey>)
    ensures
        crate::manifest::views(copy@) == crate::manifest::views(keys@),
{
    let mut copy: Vec<RenderedExclusivityKey> = Vec::new();
    let mut at: usize = 0;
    while at < keys.len()
        invariant
            at <= keys.len(),
            copy@.len() == at,
            forall|i: int| 0 <= i < at ==> (#[trigger] copy@[i])@ == keys@[i]@,
        decreases keys.len() - at,
    {
        copy.push(RenderedExclusivityKey::new(keys[at].name.as_str(), keys[at].value.as_str()));
        at = at + 1;
    }
    assert(crate::manifest::views(copy@) =~= crate::manifest::views(keys@));
    copy
}

/// The attempt that a claimed materialization is worked on in.
pub open spec fn attempt_of(materialization: MaterializationRecord) -> u64 {
    match materialization.reconciliation_lease {
        Some(lease) => lease.attempt,
        None => 0,
    }
}

fn claimed_attempt(materialization: &MaterializationRecord) -> (attempt: u64)
    requires
        materialization.reconciliation_lease is Some,
    ensures
        attempt == attempt_of(*materialization),
{
    match &materialization.reconciliation_lease {
        Some(lease) => lease.attempt,
        None => 0,
    }
}

/// A request completes a wake: under the lease of the claim, with the objects and
/// keys that the wake was accepted with.
pub open spec fn completes_wake(
    request: CompleteWakeReconciliationRequest,
    materialization: MaterializationRecord,
    owner: Seq<char>,
    backend: BackendEndpoint,
) -> bool {
    &&& request.materialization_id@ == materialization.id@
    &&& request.lease_owner@ == owner
    &&& request.attempt == attempt_of(materialization)
    &&& request.complete.instance_id@ == materialization.instance_id@
    &&& request.complete.expected_waking_generation@ == materialization.instance_generation@
    &&& request.complete.target@ == materialization.target@
    &&& request.complete.backend@ == backend@
    &&& request.complete.backend_generation@ == materialization.backend_generation@
    &&& same_objects(request.complete.rendered_objects@, materialization.rendered_objects@)
    &&& crate::manifest::views(request.complete.exclusivity_keys@) == crate::manifest::views(
        materialization.exclusivity_keys@,
    )
}

/// The request that completes a wake: the objects and keys are those that the wake
/// was accepted with.
pub fn complete_wake_request(
    materialization: &MaterializationRecord,
    owner: &str,
    backend: BackendEndpoint,
) -> (request: CompleteWakeReconciliationRequest)
    requires
        materialization.reconciliation_lease is Some,
    ensures
        completes_wake(request, *materialization, owner@, backend),
{
    let mut complete = CompleteWakeRequest::new(
        materialization.instance_id.duplicate(),
        materialization.instance_generation,
        materialization.target.duplicate(),
        backend,
        materialization.backend_generation,
    );
    complete.rendered_objects = copied_refs(&materialization.rendered_objects);
    complete.exclusivity_keys = copied_keys(&materialization.exclusivity_keys);
    CompleteWakeReconciliationRequest::new(
        materialization.id.duplicate(),
        owner,
        claimed_attempt(materialization),
        complete,
    )
}

/// A request ends a sleep: under the lease of the claim, for the instance in the
/// revision it was found in.
pub open spec fn finalizes_sleep(
    request: FinalizeSleepReconciliationRequest,
    materialization: MaterializationRecord,
    owner: Seq<char>,
    instance: InstanceRecord,
) -> bool {
    &&& request.materialization_id@ == materialization.id@
    &&& request.lease_owner@ == owner
    &&& request.attempt == attempt_of(materialization)
    &&& request.finalize.instance_id@ == instance.id@
    &&& request.finalize.expected_draining_generation@ == instance.generation@
    &&& request.finalize.target@ == materialization.target@
}

/// The request that ends a sleep: the instance is expected to drain in the
/// revision it was found in.
pub fn finalize_sleep_request(
    materialization: &MaterializationRecord,
    owner: &str,
    instance: &InstanceRecord,
) -> (request: FinalizeSleepReconciliationRequest)
    requires
        materialization.reconciliation_lease is Some,
    ensures
        finalizes_sleep(request, *materialization, owner@, *instance),
{
    FinalizeSleepReconciliationRequest::new(
        materialization.id.duplicate(),
        owner,
        claimed_attempt(materialization),
        FinalizeSleepRequest::new(
            instance.id.duplicate(),
            instance.generation,
            materialization.target.duplicate(),
        ),
    )
}

/// A request ends a materialization, under the lease of the claim and in the state
/// that it was claimed in.
pub open spec fn deletes(
    request: DeleteMaterializationReconciliationRequest,
    materialization: MaterializationRecord,
    owner: Seq<char>,
) -> bool {
    &&& request.materialization_id@ == materialization.id@
    &&& request.lease_owner@ == owner
    &&& request.attempt == attempt_of(materialization)
    &&& request.expected_state == materialization.state
    &&& request.instance_id@ == materialization.instance_id@
    &&& request.instance_generation@ == materialization.instance_generation@
    &&& request.target@ == materialization.target@
}

/// The request that ends a materialization.
pub fn delete_request(materialization: &MaterializationRecord, owner: &str) -> (request:
    DeleteMaterializationReconciliationRequest)
    requires
        materialization.reconciliation_lease is Some,
    ensures
        deletes(request, *materialization, owner@),
{
    DeleteMaterializationReconciliationRequest::new(
        materialization.id.duplicate(),
        owner,
        claimed_attempt(materialization),
        materialization.state,
        materialization.instance_id.duplicate(),
        materialization.instance_generation,
        materialization.target.duplicate(),
    )
}

/// A request holds on to the lease of the claim.
pub open spec fn renews(
    request: RenewMaterializationReconciliationLeaseRequest,
    materialization: MaterializationRecord,
    config: MaterializationReconcilerConfig,
) -> bool {
    &&& request.materialization_id@ == materialization.id@
    &&& request.owner@ == config.owner@
    &&& request.attempt == attempt_of(materialization)
    &&& request.instance_generation@ == materialization.instance_generation@
    &&& request.lease_ttl == config.lease_ttl
    &&& request.expected_state == materialization.state
}

/// The request that holds on to the lease, for as long as the owner is set to.
pub fn renew_request(
    materialization: &MaterializationRecord,
    config: &MaterializationReconcilerConfig,
) -> (request: RenewMaterializationReconciliationLeaseRequest)
    requires
        materialization.reconciliation_lease is Some,
    ensures
        renews(request, *materialization, *config),
{
    RenewMaterializationReconciliationLeaseRequest::new(
        materialization.id.duplicate(),
        config.owner.as_str(),
        claimed_attempt(materialization),
        materialization.instance_generation,
        config.lease_ttl,
        materialization.state,
    )
}

/// A request gives the lease of the claim back.
pub open spec fn releases(
    request: ReleaseMaterializationReconciliationLeaseRequest,
    materialization: MaterializationRecord,
    owner: Seq<char>,
) -> bool {
    &&& request.materialization_id@ == materialization.id@
    &&& request.owner@ == owner
    &&& request.attempt == attempt_of(materialization)
    &&& request.instance_generation@ == materialization.instance_generation@
}

/// The request that gives the lease back.
pub fn release_request(materialization: &MaterializationRecord, owner: &str) -> (request:
    ReleaseMaterializationReconciliationLeaseRequest)
    requires
        materialization.reconciliation_lease is Some,
    ensures
        releases(request, *materialization, owner@),
{
    ReleaseMaterializationReconciliationLeaseRequest::new(
        materialization.id.duplicate(),
        owner,
        claimed_attempt(materialization),
        materialization.instance_generation,
    )
}

/// A request keeps a failure, under the lease of the claim and in the state that
/// it was claimed in. `source` is the sentence of the error underneath.
pub open spec fn records_failure(
    request: RecordMaterializationFailure,
    materialization: MaterializationRecord,
    owner: Seq<char>,
    error: MaterializationReconcileError,
    source: Seq<char>,
) -> bool {
    &&& request.expected_state == materialization.state
    &&& request.materialization_id@ == materialization.id@
    &&& request.owner@ == owner
    &&& request.attempt == attempt_of(materialization)
    &&& request.generation@ == materialization.instance_generation@
    &&& request.permanent == reconcile_permanent(error)
    &&& request.message@ == reconcile_error_text(error, source)
}

/// The request that keeps a failure.
pub fn failure_request(
    materialization: &MaterializationRecord,
    owner: &str,
    error: &MaterializationReconcileError,
    source: &str,
) -> (request: RecordMaterializationFailure)
    requires
        materialization.reconciliation_lease is Some,
    ensures
        records_failure(request, *materialization, owner@, *error, source@),
{
    RecordMaterializationFailure {
        expected_state: materialization.state,
        materialization_id: materialization.id.duplicate(),
        owner: owner.to_owned(),
        attempt: claimed_attempt(materialization),
        generation: materialization.instance_generation,
        permanent: error.permanent(),
        message: error.to_text(source),
    }
}

} // verus!
