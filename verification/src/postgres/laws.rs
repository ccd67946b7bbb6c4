//! What the store promises to those who ask it.

use super::effects::{self, EffectLease, EffectView};
use super::lease_parameters;
use super::materialization_ops::{self, InstanceStanding, LeaseRow, ReadyRow};
use super::migrations::{self, MigrationStep};
use super::operational_metrics::{self, BacklogRow, HeldKeysRow};
use super::route_ops::{self, ReplayRow, RouteDependencySet, RouteRow};
use super::runtime_work::{
    self, EffectRow, FailedRow, FailureKind, FailureRecord, RouteEvent,
};
use crate::duration::{Duration, NANOS_PER_MILLI};
use crate::ids::{Generation, RouteBindingId};
use crate::instance::{InstanceRecord, InstanceState};
use crate::manifest;
use crate::materialization::{
    self, AcknowledgeMaterializationEffectRequest, BeginSleepRequest, CompleteWakeRequest,
    MaterializationEffectRequest, MaterializationRecord, MaterializationState,
    RecordMaterializationRequest,
};
use crate::route::{RouteEntry, RouteResolution};
use crate::runtime_work::UncertainMaterializationEffect;
use crate::store::{StoreError, StoreErrorView};
use crate::text;
use crate::workload::KeyView;
use vstd::prelude::*;

verus! {

// ---------------------------------------------------------------------------
// Numbers and words
// ---------------------------------------------------------------------------
/// A number is written down as itself or not at all, and not at all exactly where it does
/// not fit.
pub proof fn law_a_number_is_written_as_itself(value: u64)
    ensures
        materialization_ops::signed_outcome(value) is Ok <==> value <= 0x7fff_ffff_ffff_ffff,
        materialization_ops::signed_outcome(value) is Ok
            ==> materialization_ops::signed_outcome(value)->Ok_0 == value,
        materialization_ops::signed_outcome(value) is Err
            ==> materialization_ops::signed_outcome(value)->Err_0 is InvalidArgument,
        materialization_ops::attempt_outcome(value) is Ok <==> 1 <= value <= 0x7fff_ffff_ffff_ffff,
        materialization_ops::attempt_outcome(value) is Ok
            ==> materialization_ops::attempt_outcome(value)->Ok_0 == value,
        materialization_ops::attempt_outcome(value) is Err
            ==> materialization_ops::attempt_outcome(value)->Err_0 is InvalidArgument,
{
}

/// A number that was written down is read back, and what is no count is found out.
pub proof fn law_a_number_is_read_back(value: u64, row: i64, message: Seq<char>)
    ensures
        materialization_ops::signed_outcome(value) == Ok::<i64, StoreErrorView>(row)
            ==> materialization_ops::count_outcome(row, message) == Ok::<u64, StoreErrorView>(value),
        row < 0 ==> materialization_ops::count_outcome(row, message) == Err::<u64, StoreErrorView>(
            StoreErrorView::Internal { message },
        ),
        row >= 0 ==> materialization_ops::count_outcome(row, message) is Ok
            && materialization_ops::count_outcome(row, message)->Ok_0 == row,
{
}

/// A generation's predecessor is one less, and the first has none.
pub proof fn law_a_generation_follows_its_predecessor(generation: u64)
    ensures
        generation == 0 <==> materialization_ops::previous_outcome(generation) is Err,
        generation > 0 ==> materialization_ops::previous_outcome(generation)->Ok_0 + 1 == generation,
{
}

/// The states of a materialization are stored in these words, and read from no other.
pub proof fn law_states_have_their_words(word: Seq<char>)
    ensures
        materialization::state_word(MaterializationState::Pending) == "pending"@,
        materialization::state_word(MaterializationState::Ready) == "ready"@,
        materialization::state_word(MaterializationState::Failed) == "failed"@,
        materialization::state_word(MaterializationState::Deleting) == "deleting"@,
        materialization::state_word(MaterializationState::Deleted) == "deleted"@,
        materialization_ops::state_outcome(word) is Ok ==> materialization::state_word(
            materialization_ops::state_outcome(word)->Ok_0,
        ) == word,
        materialization_ops::state_outcome(word) is Err
            ==> materialization_ops::state_outcome(word)->Err_0 is Internal,
{
}

/// A span is kept in whole milliseconds: none is added, and less than one is lost.
pub proof fn law_a_span_is_kept_in_milliseconds(span: nat, message: Seq<char>)
    ensures
        ({
            let kept = materialization_ops::millis_outcome(span, message);
            &&& kept is Ok ==> kept->Ok_0 * 1_000_000 <= span < (kept->Ok_0 + 1) * 1_000_000
            &&& kept is Err ==> span >= 0x8000_0000_0000_0000 * 1_000_000
            &&& kept is Err ==> kept->Err_0 == (StoreErrorView::InvalidArgument { message })
        }),
{
}

/// A lease lasts from one millisecond to a day, and for the time that was asked for.
pub proof fn law_a_lease_lasts_as_asked(span: nat)
    ensures
        ({
            let kept = materialization_ops::lease_ttl_outcome(span);
            &&& kept is Ok <==> 1_000_000 <= span <= 24 * 60 * 60 * 1_000_000_000
            &&& kept is Ok ==> kept->Ok_0 * 1_000_000 <= span < (kept->Ok_0 + 1) * 1_000_000
            &&& kept is Err ==> kept->Err_0 is InvalidArgument
        }),
{
}

/// A lease is claimed by someone who says who they are, and for a time that can be kept.
pub proof fn law_a_claim_names_its_owner(owner: Seq<char>, span: nat)
    ensures
        lease_parameters::claim_outcome(owner, span) is Ok <==> !text::blank(owner) && 1_000_000
            <= span <= 24 * 60 * 60 * 1_000_000_000,
        lease_parameters::claim_outcome(owner, span) is Ok ==> ({
            let millis = lease_parameters::claim_outcome(owner, span)->Ok_0;
            millis * 1_000_000 <= span < (millis + 1) * 1_000_000
        }),
{
}

/// A stamp says the attempt, the change and the generation it was made of.
pub proof fn law_a_stamp_says_what_it_is_of(attempt: u64, effect_id: u64, generation: u64)
    ensures
        ({
            let lease = lease_parameters::stamp_outcome(attempt, generation);
            let effect = lease_parameters::effect_outcome(attempt, effect_id, generation);
            &&& lease is Ok <==> 1 <= attempt <= i64::MAX && generation <= i64::MAX
            &&& lease is Ok ==> lease->Ok_0.attempt == attempt && lease->Ok_0.generation
                == generation
            &&& effect is Ok <==> 1 <= attempt <= i64::MAX && 1 <= effect_id <= i64::MAX
                && generation <= i64::MAX
            &&& effect is Ok ==> effect->Ok_0.attempt == attempt && effect->Ok_0.effect_id
                == effect_id && effect->Ok_0.generation == generation
        }),
{
}

// ---------------------------------------------------------------------------
// Steps of an instance
// ---------------------------------------------------------------------------
/// A step is taken exactly where the instance is there, stands where it was said to stand
/// and nothing speaks against the step; it leads to the generation after.
pub proof fn law_a_step_is_taken_from_where_it_was_seen(
    current: Option<InstanceStanding>,
    expected: u64,
    refusal: Option<Seq<char>>,
)
    requires
        expected < u64::MAX,
    ensures
        ({
            let step = materialization_ops::step_outcome(current, expected, refusal);
            &&& step is Ok <==> current is Some && current->Some_0.generation@ == expected
                && refusal is None
            &&& step is Ok ==> step->Ok_0 == expected + 1
            &&& current is None ==> step->Err_0 == (StoreErrorView::NotFound {
                resource: "instance"@,
            })
            &&& current is Some && current->Some_0.generation@ != expected ==> step->Err_0 == (
            StoreErrorView::GenerationConflict {
                expected,
                actual: current->Some_0.generation@,
            })
            &&& current is Some && current->Some_0.generation@ == expected && refusal is Some
                ==> step->Err_0 == (StoreErrorView::InvalidArgument { message: refusal->Some_0 })
        }),
{
}

/// An instance is found at the generation that was said, or it is told which it is at.
pub proof fn law_a_generation_is_told_apart(actual: Option<i64>, expected: u64)
    ensures
        ({
            let verdict = materialization_ops::instance_generation_verdict(actual, expected);
            &&& verdict is Ok <==> actual is Some && actual->Some_0 == expected
            &&& actual is None ==> verdict->Err_0 == (StoreErrorView::NotFound {
                resource: "instance"@,
            })
            &&& actual is Some && actual->Some_0 >= 0 && actual->Some_0 != expected && expected
                <= i64::MAX ==> verdict->Err_0 is GenerationConflict
                && verdict->Err_0->GenerationConflict_expected == expected
                && verdict->Err_0->GenerationConflict_actual == actual->Some_0
        }),
{
}

/// An instance may sleep once it has been ready for the time that was asked for; until
/// then it is told how long it has to wait, and that is exactly what is missing.
pub proof fn law_sleep_comes_when_the_time_is_over(ready_at: Option<i64>, now: i64, minimum: i64)
    ensures
        ({
            let verdict = materialization_ops::ready_age_verdict(ready_at, now, minimum);
            let in_range = ready_at is Some && i64::MIN <= ready_at->Some_0 + minimum <= i64::MAX;
            &&& verdict is Ok <==> in_range && now - ready_at->Some_0 >= minimum
            &&& in_range && now - ready_at->Some_0 < minimum ==> verdict->Err_0 is SleepDeferred
                && verdict->Err_0->SleepDeferred_retry_after == (minimum - (now
                - ready_at->Some_0)) * 1_000_000
            &&& !in_range ==> verdict->Err_0 is InvalidArgument
        }),
{
}

/// An instance begins to sleep as it stands: it drains in the generation after, its
/// materialization loses the backend and the lease, and keeps everything that has to be
/// taken away and the keys that it holds.
pub proof fn law_sleep_keeps_what_has_to_go(
    request: BeginSleepRequest,
    current: Option<InstanceStanding>,
    refusal: Option<Seq<char>>,
    ready: Option<ReadyRow>,
    active: Option<MaterializationRecord>,
)
    requires
        materialization_ops::sleep_outcome(request, current, refusal, ready, active) is Ok,
    ensures
        ({
            let plan = materialization_ops::sleep_outcome(
                request,
                current,
                refusal,
                ready,
                active,
            )->Ok_0;
            let running = request.expected_running_generation@;
            &&& current is Some && current->Some_0.generation@ == running && refusal is None
            &&& plan.instance_state == InstanceState::Draining
            &&& plan.running_generation == running
            &&& plan.draining_generation == running + 1
            &&& plan.drain_grace_millis * 1_000_000 <= request.drain_grace_timeout@ < (
            plan.drain_grace_millis + 1) * 1_000_000
            &&& plan.materialization is Some <==> active is Some
            &&& active is Some ==> {
                let before = active->Some_0;
                let after = plan.materialization->Some_0;
                &&& before.instance_generation@ == running
                &&& after.id == before.id
                &&& after.instance_id == before.instance_id
                &&& after.instance_generation == before.instance_generation
                &&& after.projection_generation == before.projection_generation
                &&& after.target == before.target
                &&& after.backend_generation == before.backend_generation
                &&& after.rendered_objects == before.rendered_objects
                &&& after.exclusivity_keys == before.exclusivity_keys
                &&& after.state == MaterializationState::Deleting
                &&& after.backend is None
                &&& after.reconciliation_lease is None
            }
        }),
{
}

/// Where nothing speaks against it and the instance has been ready long enough, an
/// instance does begin to sleep.
pub proof fn law_sleep_begins(
    request: BeginSleepRequest,
    current: InstanceStanding,
    ready: Option<ReadyRow>,
    active: Option<MaterializationRecord>,
)
    requires
        current.generation@ == request.expected_running_generation@,
        request.expected_running_generation@ < i64::MAX,
        request.drain_grace_timeout@ <= i64::MAX,
        active is Some ==> active->Some_0.instance_generation@
            == request.expected_running_generation@,
        request.minimum_ready_age is Some ==> {
            &&& ready is Some
            &&& request.minimum_ready_age->Some_0@ <= i64::MAX
            &&& ready->Some_0.state_entered_at <= ready->Some_0.now
            &&& request.minimum_ready_age->Some_0@ <= (ready->Some_0.now
                - ready->Some_0.state_entered_at) * 1_000_000
        },
    ensures
        materialization_ops::sleep_outcome(request, Some(current), None, ready, active) is Ok,
{
    if let Some(minimum) = request.minimum_ready_age {
        let row = ready->Some_0;
        let millis = minimum@ / NANOS_PER_MILLI as nat;
        assert(millis * 1_000_000 <= minimum@);
        assert(millis <= row.now - row.state_entered_at);
    }
}

// ---------------------------------------------------------------------------
// Leases
// ---------------------------------------------------------------------------
/// A lease serves exactly the one who holds it: of the generation they said, under their
/// name, in their attempt, for as long as it lasts and while no change is open.
pub proof fn law_a_lease_serves_its_holder(
    row: Option<LeaseRow>,
    generation: i64,
    owner: Seq<char>,
    attempt: u64,
    now: i64,
    effect_open: bool,
)
    ensures
        ({
            let verdict = materialization_ops::lease_verdict(
                row,
                generation,
                owner,
                attempt,
                now,
                effect_open,
            );
            &&& verdict is Ok <==> {
                &&& row is Some
                &&& row->Some_0.instance_generation == generation
                &&& row->Some_0.owner is Some
                &&& row->Some_0.owner->Some_0@ == owner
                &&& row->Some_0.attempt == attempt
                &&& attempt >= 1
                &&& row->Some_0.expires_at is Some
                &&& now < row->Some_0.expires_at->Some_0
                &&& !effect_open
            }
            &&& row is None ==> verdict->Err_0 == (StoreErrorView::NotFound {
                resource: "materialization"@,
            })
            &&& row is Some && row->Some_0.instance_generation >= 0 && generation >= 0
                && row->Some_0.instance_generation != generation ==> verdict->Err_0
                is GenerationConflict && verdict->Err_0->GenerationConflict_expected == generation
                && verdict->Err_0->GenerationConflict_actual == row->Some_0.instance_generation
        }),
{
    assert(row is Some && row->Some_0.owner is Some ==> manifest::optional_view(row->Some_0.owner)
        == Some(row->Some_0.owner->Some_0@));
}

// ---------------------------------------------------------------------------
// Changes of the cluster
// ---------------------------------------------------------------------------
/// A change is begun only by who holds the lease, and what is written down of it is what
/// was asked for.
pub proof fn law_a_change_is_begun_under_a_lease(
    request: MaterializationEffectRequest,
    lease: Option<EffectLease>,
    recorded: Option<EffectView>,
)
    requires
        effects::begin_outcome(request, lease, recorded) is Ok,
        effects::begin_outcome(request, lease, recorded)->Ok_0.0,
    ensures
        ({
            let written = effects::begin_outcome(request, lease, recorded)->Ok_0.1;
            &&& lease is Some
            &&& lease->Some_0.owner is Some
            &&& lease->Some_0.owner->Some_0@ == request.owner@
            &&& lease->Some_0.attempt == request.attempt
            &&& lease->Some_0.instance_generation == request.instance_generation@
            &&& lease->Some_0.state == request.expected_state
            &&& lease->Some_0.expires_at is Some
            &&& lease->Some_0.now < lease->Some_0.expires_at->Some_0
            &&& written is Some
            &&& written->Some_0.lease_owner == request.owner@
            &&& written->Some_0.lease_attempt == request.attempt
            &&& written->Some_0.instance_generation == request.instance_generation@
            &&& written->Some_0.operation == request.operation@
            &&& written->Some_0.api_version == request.object.api_version@
            &&& written->Some_0.kind == request.object.kind@
            &&& written->Some_0.namespace == request.object.namespace@
            &&& written->Some_0.name == request.object.name@
            &&& written->Some_0.effect_id == request.effect_id
            &&& written->Some_0.expected_uid is Some <==> request.precondition is Some
            &&& written->Some_0.expected_resource_version is Some <==> request.precondition is Some
            &&& request.precondition is Some ==> written->Some_0.expected_uid->Some_0
                == request.precondition->Some_0.uid@
                && written->Some_0.expected_resource_version->Some_0
                == request.precondition->Some_0.resource_version@
            &&& recorded is Some ==> written == recorded
        }),
{
}

/// Who holds the lease may begin a change where none is open.
pub proof fn law_a_holder_may_begin_a_change(
    request: MaterializationEffectRequest,
    lease: EffectLease,
)
    requires
        !text::blank(request.owner@),
        1 <= request.attempt <= i64::MAX,
        1 <= request.effect_id <= i64::MAX,
        request.instance_generation@ <= i64::MAX,
        lease.owner is Some,
        lease.owner->Some_0@ == request.owner@,
        lease.attempt == request.attempt,
        lease.instance_generation == request.instance_generation@,
        lease.state == request.expected_state,
        lease.expires_at is Some,
        lease.now < lease.expires_at->Some_0,
    ensures
        effects::begin_outcome(request, Some(lease), None) is Ok,
        effects::begin_outcome(request, Some(lease), None)->Ok_0.0,
{
}

/// A change is settled exactly by an answer that is about it.
pub proof fn law_an_answer_settles_its_own_change(
    request: AcknowledgeMaterializationEffectRequest,
    recorded: Option<EffectView>,
)
    requires
        1 <= request.attempt <= i64::MAX,
        1 <= request.effect_id <= i64::MAX,
        request.instance_generation@ <= i64::MAX,
    ensures
        effects::acknowledge_outcome(request, recorded) is Ok,
        effects::acknowledge_outcome(request, recorded)->Ok_0 <==> {
            &&& recorded is Some
            &&& recorded->Some_0.lease_owner == request.owner@
            &&& recorded->Some_0.lease_attempt == request.attempt
            &&& recorded->Some_0.effect_id == request.effect_id
            &&& recorded->Some_0.instance_generation == request.instance_generation@
        },
{
}

// ---------------------------------------------------------------------------
// Changes of routes
// ---------------------------------------------------------------------------
/// A reader goes on from where they are exactly where everything since is still kept; who
/// is ahead of the store, or behind what it keeps, begins anew.
pub proof fn law_a_reader_goes_on_where_nothing_is_missing(
    cursor: i64,
    current: i64,
    oldest: Option<i64>,
)
    ensures
        cursor == current ==> !runtime_work::must_reset(cursor, current, oldest),
        cursor > current ==> runtime_work::must_reset(cursor, current, oldest),
        cursor < current && oldest is None ==> runtime_work::must_reset(cursor, current, oldest),
        cursor < current && oldest is Some ==> (runtime_work::must_reset(cursor, current, oldest)
            <==> cursor + 1 < oldest->Some_0),
{
}

/// A reader is handed the place of the last change they were shown, or the store's own
/// where they were shown none or begin anew.
pub proof fn law_a_reader_is_told_where_they_are(reset: bool, current: i64, events: Seq<RouteEvent>)
    requires
        current >= 0,
    ensures
        reset ==> runtime_work::next_cursor(reset, current, events) == current,
        events.len() == 0 ==> runtime_work::next_cursor(reset, current, events) == current,
        !reset && events.len() > 0 && events.last().revision is Some ==> runtime_work::next_cursor(
            reset,
            current,
            events,
        ) == events.last().revision->Some_0,
        runtime_work::payloads(events).len() == events.len(),
        forall|i: int|
            0 <= i < events.len() ==> #[trigger] runtime_work::payloads(events)[i]
                == events[i].payload@,
{
}

/// A route's row is read where none of its numbers is negative, and as it stands.
pub proof fn law_a_route_is_read_as_it_stands(row: RouteRow)
    ensures
        route_ops::row_generations(row) is Ok <==> row.generation >= 0 && (row.backend_generation
            is None || row.backend_generation->Some_0 >= 0),
        route_ops::row_generations(row) is Ok ==> ({
            let read = route_ops::row_generations(row)->Ok_0;
            &&& read.0 == row.generation
            &&& read.1 is Some <==> row.backend_generation is Some
            &&& read.1 is Some ==> read.1->Some_0 == row.backend_generation->Some_0
        }),
        route_ops::row_generations(row) is Err ==> route_ops::row_generations(row)->Err_0
            is Internal,
{
}

/// A request that was made before is answered again exactly where it is the same request
/// of the same operation and what it made is still there.
pub proof fn law_the_same_request_is_answered_again(row: Option<ReplayRow>)
    ensures
        ({
            let verdict = route_ops::replay_verdict(row);
            &&& verdict is Ok <==> row is Some && row->Some_0.operation@ == "create_route_binding"@
                && row->Some_0.same_fingerprint && !row->Some_0.resource_deleted
            &&& row is None ==> verdict->Err_0 is Unavailable
            &&& row is Some && !row->Some_0.same_fingerprint ==> verdict->Err_0
                is IdempotencyConflict
            &&& row is Some && row->Some_0.operation@ != "create_route_binding"@ ==> verdict->Err_0
                is IdempotencyConflict
            &&& verdict is Err && verdict->Err_0 is IdempotencyResourceDeleted ==> row is Some
                && row->Some_0.resource_deleted
        }),
{
}

// ---------------------------------------------------------------------------
// Failures
// ---------------------------------------------------------------------------
/// A failure is what it is: an open change stands above everything, then the deadline,
/// then what the work itself says. Only what cannot be right any more ends the attempts.
pub proof fn law_a_failure_is_of_one_kind(uncertain: bool, expired: bool, permanent: bool)
    ensures
        ({
            let kind = runtime_work::failure_kind(uncertain, expired, permanent);
            &&& kind is Uncertain <==> uncertain
            &&& kind is Deadline <==> !uncertain && expired
            &&& kind is Permanent <==> !uncertain && !expired && permanent
            &&& kind is Transient <==> !uncertain && !expired && !permanent
            &&& runtime_work::ends_attempts(kind) <==> !uncertain && (expired || permanent)
        }),
{
}

/// The kinds of failures are stored in these words.
pub proof fn law_failures_have_their_words()
    ensures
        runtime_work::failure_word(FailureKind::Uncertain) == "uncertain"@,
        runtime_work::failure_word(FailureKind::Deadline) == "deadline"@,
        runtime_work::failure_word(FailureKind::Permanent) == "permanent"@,
        runtime_work::failure_word(FailureKind::Transient) == "transient"@,
{
}

/// After each failure the wait is twice what it was, from a second to half a minute and
/// two seconds, and there it stays; failures are counted one by one.
pub proof fn law_the_wait_doubles(count: i32)
    ensures
        count <= 0 ==> runtime_work::retry_delay(count) == 1_000,
        0 <= count < 5 ==> runtime_work::retry_delay((count + 1) as i32)
            == 2 * runtime_work::retry_delay(count),
        count >= 5 ==> runtime_work::retry_delay(count) == 32_000,
        count < i32::MAX ==> runtime_work::failures_after(count) == count + 1,
        runtime_work::failures_after(i32::MAX) == i32::MAX,
{
}

/// A span that was stored in milliseconds is read as that many, and none as none.
pub proof fn law_a_stored_span_is_read(millis: Option<i64>)
    ensures
        runtime_work::read_span(millis) is Some <==> millis is Some,
        millis is Some && millis->Some_0 >= 0 ==> runtime_work::read_span(millis)->Some_0
            == millis->Some_0 * 1_000_000,
{
}

// ---------------------------------------------------------------------------
// What is counted
// ---------------------------------------------------------------------------
/// A count of waiting materializations is read as it stands: the state, how many there
/// are and how long the oldest has waited.
pub proof fn law_a_backlog_is_read_as_it_stands(row: BacklogRow)
    ensures
        ({
            let read = operational_metrics::backlog_outcome(row);
            &&& read is Ok ==> materialization::state_word(read->Ok_0.0) == row.state@
            &&& read is Ok ==> read->Ok_0.1 == row.count
            &&& read is Ok ==> read->Ok_0.2 is Some && read->Ok_0.2->Some_0
                == row.oldest_age_millis * 1_000_000
            &&& read is Err ==> read->Err_0 is Internal
            &&& row.count < 0 || row.oldest_age_millis < 0 ==> read is Err
            &&& row.count >= 0 && row.oldest_age_millis >= 0 ==> (read is Ok
                <==> materialization_ops::state_outcome(row.state@) is Ok)
        }),
{
}

/// A count of held keys is read as it stands.
pub proof fn law_held_keys_are_read_as_they_stand(row: HeldKeysRow)
    ensures
        ({
            let read = operational_metrics::held_keys_outcome(row);
            &&& read is Ok ==> materialization::state_word(read->Ok_0.0) == row.state@
            &&& read is Ok ==> read->Ok_0.1 == row.exclusivity_keys_held
            &&& read is Err ==> read->Err_0 is Internal
            &&& row.exclusivity_keys_held < 0 ==> read is Err
            &&& row.exclusivity_keys_held >= 0 ==> (read is Ok
                <==> materialization_ops::state_outcome(row.state@) is Ok)
        }),
{
}

/// Counts are refused exactly where one of their rows cannot be read, and then with what
/// is wrong with the first such row.
pub proof fn law_the_first_fault_is_told(rows: Seq<BacklogRow>, at: int)
    ensures
        operational_metrics::backlog_fault(rows, rows.len()) is None && 0 <= at < rows.len()
            ==> operational_metrics::backlog_outcome(rows[at]) is Ok,
        0 <= at < rows.len() && operational_metrics::backlog_outcome(rows[at]) is Err && (
        forall|earlier: int|
            0 <= earlier < at ==> operational_metrics::backlog_outcome(
                #[trigger] rows[earlier],
            ) is Ok) ==> operational_metrics::backlog_fault(rows, rows.len()) == Some(
            operational_metrics::backlog_outcome(rows[at])->Err_0,
        ),
{
    if 0 <= at < rows.len() {
        lemma_fault_stays(rows, (at + 1) as nat, rows.len());
        if forall|earlier: int|
            0 <= earlier < at ==> operational_metrics::backlog_outcome(
                #[trigger] rows[earlier],
            ) is Ok {
            lemma_no_fault(rows, at as nat);
        }
    }
}

proof fn lemma_fault_stays(rows: Seq<BacklogRow>, count: nat, more: nat)
    requires
        count <= more <= rows.len(),
    ensures
        operational_metrics::backlog_fault(rows, count) is Some
            ==> operational_metrics::backlog_fault(rows, more)
            == operational_metrics::backlog_fault(rows, count),
    decreases more,
{
    if count < more {
        lemma_fault_stays(rows, count, (more - 1) as nat);
    }
}

proof fn lemma_no_fault(rows: Seq<BacklogRow>, count: nat)
    requires
        count <= rows.len(),
        forall|i: int|
            0 <= i < count ==> operational_metrics::backlog_outcome(#[trigger] rows[i]) is Ok,
    ensures
        operational_metrics::backlog_fault(rows, count) is None,
    decreases count,
{
    if count > 0 {
        lemma_no_fault(rows, (count - 1) as nat);
        assert(operational_metrics::backlog_outcome(rows[count - 1]) is Ok);
    }
}

/// Counts of held keys are refused exactly where one of their rows cannot be read, and
/// then with what is wrong with the first such row.
pub proof fn law_the_first_fault_of_held_keys_is_told(rows: Seq<HeldKeysRow>, at: int)
    ensures
        operational_metrics::held_keys_fault(rows, rows.len()) is None && 0 <= at < rows.len()
            ==> operational_metrics::held_keys_outcome(rows[at]) is Ok,
        0 <= at < rows.len() && operational_metrics::held_keys_outcome(rows[at]) is Err && (
        forall|earlier: int|
            0 <= earlier < at ==> operational_metrics::held_keys_outcome(
                #[trigger] rows[earlier],
            ) is Ok) ==> operational_metrics::held_keys_fault(rows, rows.len()) == Some(
            operational_metrics::held_keys_outcome(rows[at])->Err_0,
        ),
{
    if 0 <= at < rows.len() {
        lemma_held_fault_stays(rows, (at + 1) as nat, rows.len());
        if forall|earlier: int|
            0 <= earlier < at ==> operational_metrics::held_keys_outcome(
                #[trigger] rows[earlier],
            ) is Ok {
            lemma_no_held_fault(rows, at as nat);
        }
    }
}

proof fn lemma_held_fault_stays(rows: Seq<HeldKeysRow>, count: nat, more: nat)
    requires
        count <= more <= rows.len(),
    ensures
        operational_metrics::held_keys_fault(rows, count) is Some
            ==> operational_metrics::held_keys_fault(rows, more)
            == operational_metrics::held_keys_fault(rows, count),
    decreases more,
{
    if count < more {
        lemma_held_fault_stays(rows, count, (more - 1) as nat);
    }
}

proof fn lemma_no_held_fault(rows: Seq<HeldKeysRow>, count: nat)
    requires
        count <= rows.len(),
        forall|i: int|
            0 <= i < count ==> operational_metrics::held_keys_outcome(#[trigger] rows[i]) is Ok,
    ensures
        operational_metrics::held_keys_fault(rows, count) is None,
    decreases count,
{
    if count > 0 {
        lemma_no_held_fault(rows, (count - 1) as nat);
        assert(operational_metrics::held_keys_outcome(rows[count - 1]) is Ok);
    }
}

// ---------------------------------------------------------------------------
// Migrations
// ---------------------------------------------------------------------------
/// A migration is made once: where its version was never applied it is, where it was
/// applied under its name it is not again, and under any other name it is refused.
pub proof fn law_a_migration_is_made_once(
    version: i32,
    name: Seq<char>,
    applied: Option<Seq<char>>,
)
    ensures
        ({
            let step = migrations::migration_outcome(version, name, applied);
            &&& step == Ok::<MigrationStep, StoreErrorView>(MigrationStep::Apply) <==> applied
                is None
            &&& step == Ok::<MigrationStep, StoreErrorView>(MigrationStep::Skip) <==> applied
                == Some(name)
            &&& step is Err ==> step->Err_0 is Internal
        }),
{
}

// ---------------------------------------------------------------------------
// What is kept
// ---------------------------------------------------------------------------
/// A step that is written down is the generation after the one that was seen.
pub proof fn law_a_written_step_is_the_next(
    current: Option<InstanceStanding>,
    expected: u64,
    refusal: Option<Seq<char>>,
)
    ensures
        ({
            let step = materialization_ops::written_step(current, expected, refusal);
            &&& step is Ok <==> current is Some && current->Some_0.generation@ == expected
                && refusal is None && expected < i64::MAX
            &&& step is Ok ==> step->Ok_0 == expected + 1
        }),
{
}

/// What is kept of a wake that is complete is ready: for the instance, the target and the
/// backend that it was complete with, with its objects and the keys it holds.
pub proof fn law_a_completed_wake_is_kept_ready(
    record: RecordMaterializationRequest,
    request: CompleteWakeRequest,
    running: i64,
    prior: Option<Generation>,
    key: KeyView,
)
    requires
        materialization_ops::keeps_ready(record, request, running, prior),
    ensures
        record.state == MaterializationState::Ready,
        record.instance_id == request.instance_id,
        record.instance_generation@ == running,
        prior is Some ==> record.projection_generation@ == prior->Some_0@,
        prior is None ==> record.projection_generation@ == running,
        record.target == request.target,
        record.backend == Some(request.backend),
        record.backend_generation == request.backend_generation,
        record.rendered_objects == request.rendered_objects,
        manifest::views(record.exclusivity_keys@).contains(key) <==> manifest::views(
            request.exclusivity_keys@,
        ).contains(key),
{
}

/// Keys are kept in the order of their names, and under one name in that of their values;
/// none is kept twice.
pub proof fn law_keys_are_kept_in_order(kept: Seq<KeyView>, listed: Seq<KeyView>, left: int, right: int)
    requires
        materialization_ops::normal_form_of(kept, listed),
        0 <= left < right < kept.len(),
    ensures
        kept[left] != kept[right],
        kept[left].name != kept[right].name ==> text::text_lt(kept[left].name, kept[right].name),
        kept[left].name == kept[right].name ==> text::text_lt(kept[left].value, kept[right].value),
{
    assert(materialization_ops::key_before(kept[left], kept[right]));
    text::lemma_text_lt_irreflexive(kept[left].name);
    text::lemma_text_lt_irreflexive(kept[left].value);
}

/// What is kept of a sleep that is complete is what the materialization was, without
/// objects, keys, backend or lease.
pub proof fn law_nothing_is_left_of_a_sleep(
    kept: MaterializationRecord,
    active: MaterializationRecord,
)
    requires
        materialization_ops::ends_without_rest(kept, active),
    ensures
        kept.state == MaterializationState::Deleted,
        kept.id == active.id,
        kept.instance_id == active.instance_id,
        kept.projection_generation == active.projection_generation,
        kept.target == active.target,
        kept.backend_generation == active.backend_generation,
        kept.backend is None,
        kept.reconciliation_lease is None,
        kept.rendered_objects@.len() == 0,
        kept.exclusivity_keys@.len() == 0,
{
}

/// A materialization that waits is made for the generation after; any other is of the one
/// it is in.
pub proof fn law_a_wake_is_made_for_the_next_generation(
    generation: u64,
    state: MaterializationState,
)
    requires
        generation < u64::MAX,
    ensures
        state == MaterializationState::Pending ==> materialization::first_projection(
            generation,
            state,
        ) == generation + 1,
        state != MaterializationState::Pending ==> materialization::first_projection(
            generation,
            state,
        ) == generation,
{
}

/// A route leads where its row says.
pub proof fn law_a_route_leads_where_its_row_says(entry: RouteEntry, row: RouteRow)
    requires
        route_ops::row_generations(row) is Ok,
        route_ops::entry_of_row(entry, row, route_ops::row_generations(row)->Ok_0),
    ensures
        entry.route_binding_id == row.route_binding_id,
        entry.instance_id == row.instance_id,
        entry.instance_state == row.instance_state,
        entry.instance_generation@ == row.generation,
        entry.backend == row.backend,
        entry.backend_generation is Some <==> row.backend_generation is Some,
        entry.backend_generation is Some ==> entry.backend_generation->Some_0@
            == row.backend_generation->Some_0,
{
}

/// An open change is told as its row says.
pub proof fn law_an_open_change_is_told(effect: UncertainMaterializationEffect, row: EffectRow)
    requires
        runtime_work::tells_effect(effect, row),
    ensures
        effect.generation@ == row.generation,
        effect.owner == row.owner,
        row.attempt >= 0 ==> effect.attempt == row.attempt,
        row.effect_id >= 0 ==> effect.effect_id == row.effect_id,
        effect.operation == row.operation,
        effect.object == row.object,
        effect.expected_uid == row.expected_uid,
        effect.expected_resource_version == row.expected_resource_version,
        effect.started_at_unix_millis == row.started_at_unix_millis,
{
}

/// The names of what follows the dots of a host are those under which a wildcard may stand
/// for it: one for each dot, the longest first.
pub proof fn law_each_dot_gives_a_suffix(front: Seq<char>, rest: Seq<char>)
    ensures
        route_ops::suffixes_from(front + seq!['.'] + rest, front.len() as int) == seq![rest]
            + route_ops::suffixes_from(front + seq!['.'] + rest, front.len() as int + 1),
{
    let host = front + seq!['.'] + rest;
    assert(host.skip(front.len() as int + 1) =~= rest);
    assert(host[front.len() as int] == '.');
}

/// A limit that can be kept is kept, and another is the nearest that can.
pub proof fn law_a_limit_is_kept_within_bounds(limit: u32)
    ensures
        1 <= runtime_work::limit_of(limit) <= 1024,
        1 <= limit <= 1024 ==> runtime_work::limit_of(limit) == limit,
        limit > 1024 ==> runtime_work::limit_of(limit) == 1024,
{
}

/// A request is answered by the row that was found, with the identity that matched; without
/// a row the answer is that there is none, for as long as that may be kept.
pub proof fn law_a_request_is_answered_by_its_row(
    result: Result<RouteResolution, StoreError>,
    row: Option<RouteRow>,
    negative_cache: Duration,
)
    requires
        route_ops::resolved_by(result, row, negative_cache),
    ensures
        row is None ==> result is Ok && result->Ok_0 is Miss && result->Ok_0->negative_cache
            == negative_cache,
        row is Some ==> (result is Ok <==> row->Some_0.generation >= 0 && (
        row->Some_0.backend_generation is None || row->Some_0.backend_generation->Some_0 >= 0)),
        row is Some && result is Ok ==> {
            &&& result->Ok_0 is Resolved
            &&& result->Ok_0->matched_identity == row->Some_0.identity
            &&& result->Ok_0->entry.route_binding_id == row->Some_0.route_binding_id
            &&& result->Ok_0->entry.instance_id == row->Some_0.instance_id
            &&& result->Ok_0->entry.backend == row->Some_0.backend
        },
        result is Err ==> result->Err_0@ is Internal,
{
}

/// A route that is there depends on its instance, which must be there, and on the backend
/// that is ready, if one is; no route depends on nothing.
pub proof fn law_a_route_depends_on_its_instance(
    result: Result<Option<RouteDependencySet>, StoreError>,
    route: Option<RouteBindingId>,
    instance: Option<InstanceRecord>,
    ready: Option<MaterializationRecord>,
)
    requires
        route_ops::depends_on(result, route, instance, ready),
    ensures
        route is None ==> result is Ok && result->Ok_0 is None,
        route is Some && instance is None ==> result is Err && result->Err_0@ is NotFound,
        route is Some && instance is Some ==> {
            &&& result is Ok && result->Ok_0 is Some
            &&& result->Ok_0->Some_0.route_binding_id == route->Some_0
            &&& result->Ok_0->Some_0.instance_id == instance->Some_0.id
            &&& result->Ok_0->Some_0.materialization_generation is Some <==> ready is Some
            &&& ready is Some ==> result->Ok_0->Some_0.materialization_generation == Some(
                ready->Some_0.backend_generation,
            )
        },
{
}

/// A failure is written down by who still holds the lease: it counts one more, comes back
/// after its wait, and what was begun is cleaned up exactly where a wake has failed for good.
pub proof fn law_a_failure_is_written_down(
    record: Option<FailureRecord>,
    row: FailedRow,
    now: i64,
    permanent: bool,
    message: Seq<char>,
)
    requires
        runtime_work::writes_failure(record, row, now, permanent, message),
        row.failure_count < i32::MAX,
    ensures
        record is Some <==> row.lease_expires_at is Some && now < row.lease_expires_at->Some_0,
        record is Some ==> {
            let kept = record->Some_0;
            &&& kept.kind is Uncertain <==> row.uncertain
            &&& kept.kind is Deadline <==> !row.uncertain && row.operation_deadline <= now
            &&& kept.kind is Permanent <==> !row.uncertain && now < row.operation_deadline
                && permanent
            &&& kept.count == row.failure_count + 1
            &&& kept.delay_millis == runtime_work::retry_delay(kept.count)
            &&& kept.cleanup_required <==> row.pending && !row.uncertain && (permanent
                || row.operation_deadline <= now)
            &&& kept.message@.len() <= 512
            &&& message.len() <= 512 ==> kept.message@ == message
        },
{
}

} // verus!
