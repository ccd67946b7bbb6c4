//! Materializations in the store: what a request must fulfil, what a row must
//! hold, and what is written.

use crate::duration::{Duration, NANOS_PER_MILLI, NANOS_PER_SEC};
use crate::ids::{self, BackendGeneration, Generation};
use crate::instance::InstanceState;
use crate::manifest;
use crate::materialization::{
    self, BeginSleepRequest, CompleteWakeRequest, FinalizeSleepRequest, MaterializationRecord,
    MaterializationState, RecordMaterializationRequest, MAX_RECONCILIATION_LEASE_TTL,
};
use crate::store::{self, StoreError, StoreErrorView};
use crate::text::{self, decimal_text, is_blank, same_text, signed_decimal_text, text_before};
use crate::workload::{KeyView, RenderedExclusivityKey};
use vstd::prelude::*;
use vstd::string::*;

verus! {

// ---------------------------------------------------------------------------
// Exclusivity keys
// ---------------------------------------------------------------------------
/// One key comes before another: by its name, then by its value.
pub open spec fn key_before(left: KeyView, right: KeyView) -> bool {
    ||| text::text_lt(left.name, right.name)
    ||| left.name == right.name && text::text_lt(left.value, right.value)
}

/// Keys stand in order, and none occurs twice.
pub open spec fn keys_in_order(keys: Seq<KeyView>) -> bool {
    forall|i: int, j: int|
        #![trigger keys[i], keys[j]]
        0 <= i < j < keys.len() ==> key_before(keys[i], keys[j])
}

/// The keys that are kept of a list: in order, and each once.
pub open spec fn normal_form_of(kept: Seq<KeyView>, listed: Seq<KeyView>) -> bool {
    &&& keys_in_order(kept)
    &&& forall|key: KeyView| #[trigger] kept.contains(key) <==> listed.contains(key)
}

proof fn lemma_key_order(a: KeyView, b: KeyView, c: KeyView)
    ensures
        !key_before(a, a),
        key_before(a, b) && key_before(b, c) ==> key_before(a, c),
        a == b || key_before(a, b) || key_before(b, a),
{
    text::lemma_text_lt_irreflexive(a.name);
    text::lemma_text_lt_irreflexive(a.value);
    text::lemma_text_lt_total(a.name, b.name);
    text::lemma_text_lt_total(a.value, b.value);
    if text::text_lt(a.name, b.name) && text::text_lt(b.name, c.name) {
        text::lemma_text_lt_transitive(a.name, b.name, c.name);
    }
    if text::text_lt(a.value, b.value) && text::text_lt(b.value, c.value) {
        text::lemma_text_lt_transitive(a.value, b.value, c.value);
    }
}

/// However the keys of a class were listed, and however often, the same keys are
/// kept in the same order.
pub proof fn law_normal_form_is_unique(
    left: Seq<KeyView>,
    listed: Seq<KeyView>,
    right: Seq<KeyView>,
    listed_otherwise: Seq<KeyView>,
)
    requires
        normal_form_of(left, listed),
        normal_form_of(right, listed_otherwise),
        forall|key: KeyView| #[trigger] listed.contains(key) <==> listed_otherwise.contains(key),
    ensures
        left == right,
{
    lemma_keys_in_order_are_equal(left, right);
}

/// Two lists in order with the same keys are one list.
proof fn lemma_keys_in_order_are_equal(left: Seq<KeyView>, right: Seq<KeyView>)
    requires
        keys_in_order(left),
        keys_in_order(right),
        forall|key: KeyView| #[trigger] left.contains(key) <==> right.contains(key),
    ensures
        left == right,
    decreases left.len(),
{
    if left.len() == 0 {
        if right.len() > 0 {
            assert(right.contains(right[0]));
            assert(left.contains(right[0]));
        }
        assert(left =~= right);
    } else {
        assert(left.contains(left.last()));
        assert(right.contains(left.last()));
        assert(right.contains(right.last()));
        assert(left.contains(right.last()));
        let at = choose|at: int| 0 <= at < right.len() && right[at] == left.last();
        let to = choose|to: int| 0 <= to < left.len() && left[to] == right.last();
        lemma_key_order(left.last(), right.last(), left.last());
        lemma_key_order(right.last(), left.last(), right.last());
        if left.last() != right.last() {
            assert(at < right.len() - 1);
            assert(to < left.len() - 1);
            assert(key_before(right[at], right[right.len() - 1]));
            assert(key_before(left[to], left[left.len() - 1]));
        }
        let shorter = left.drop_last();
        let other = right.drop_last();
        assert forall|key: KeyView| #[trigger] shorter.contains(key) <==> other.contains(key) by {
            lemma_drop_last_lacks(left);
            lemma_drop_last_lacks(right);
            if shorter.contains(key) {
                let i = choose|i: int| 0 <= i < shorter.len() && shorter[i] == key;
                assert(left[i] == key);
                assert(left.contains(key));
                assert(right.contains(key));
                let j = choose|j: int| 0 <= j < right.len() && right[j] == key;
                assert(j < right.len() - 1);
                assert(other[j] == key);
            }
            if other.contains(key) {
                let i = choose|i: int| 0 <= i < other.len() && other[i] == key;
                assert(right[i] == key);
                assert(right.contains(key));
                assert(left.contains(key));
                let j = choose|j: int| 0 <= j < left.len() && left[j] == key;
                assert(j < left.len() - 1);
                assert(shorter[j] == key);
            }
        }
        lemma_keys_in_order_are_equal(shorter, other);
        assert(left =~= shorter.push(left.last()));
        assert(right =~= other.push(right.last()));
    }
}

proof fn lemma_drop_last_lacks(keys: Seq<KeyView>)
    requires
        keys.len() > 0,
        keys_in_order(keys),
    ensures
        !keys.drop_last().contains(keys.last()),
{
    if keys.drop_last().contains(keys.last()) {
        let i = choose|i: int|
            0 <= i < keys.drop_last().len() && keys.drop_last()[i] == keys.last();
        assert(key_before(keys[i], keys[keys.len() - 1]));
        lemma_key_order(keys.last(), keys.last(), keys.last());
    }
}

fn comes_before(left: &RenderedExclusivityKey, right: &RenderedExclusivityKey) -> (before: bool)
    ensures
        before == key_before(left@, right@),
{
    text_before(left.name.as_str(), right.name.as_str()) || (same_text(
        left.name.as_str(),
        right.name.as_str(),
    ) && text_before(left.value.as_str(), right.value.as_str()))
}

fn place_key(keys: &mut Vec<RenderedExclusivityKey>, key: RenderedExclusivityKey)
    requires
        keys_in_order(manifest::views(old(keys)@)),
    ensures
        keys_in_order(manifest::views(final(keys)@)),
        forall|other: KeyView|
            #[trigger] manifest::views(final(keys)@).contains(other) <==> (other == key@
                || manifest::views(old(keys)@).contains(other)),
{
    let ghost before = manifest::views(keys@);
    let ghost new = key@;
    let mut at: usize = 0;
    while at < keys.len() && comes_before(&keys[at], &key)
        invariant
            at <= keys@.len(),
            before == manifest::views(keys@),
            new == key@,
            forall|i: int| 0 <= i < at ==> key_before(#[trigger] before[i], new),
        decreases keys@.len() - at,
    {
        assert(before[at as int] == keys@[at as int]@);
        at = at + 1;
    }
    if at < keys.len() {
        assert(before[at as int] == keys@[at as int]@);
        if !comes_before(&key, &keys[at]) {
            proof {
                lemma_key_order(new, before[at as int], new);
                assert(before[at as int] == new);
                assert(before.contains(new));
            }
            return;
        }
    }
    keys.insert(at, key);
    proof {
        let after = manifest::views(keys@);
        assert(after =~= before.insert(at as int, new));
        assert forall|i: int, j: int|
            #![trigger after[i], after[j]]
            0 <= i < j < after.len() implies key_before(after[i], after[j]) by {
            let p = if i > at {
                i - 1
            } else {
                i
            };
            let q = if j > at {
                j - 1
            } else {
                j
            };
            if i != at && j != at {
                assert(after[i] == before[p] && after[j] == before[q]);
            } else if i == at {
                assert(after[j] == before[q]);
                assert(key_before(new, before[at as int]));
                if q > at {
                    assert(key_before(before[at as int], before[q]));
                    lemma_key_order(new, before[at as int], before[q]);
                }
            } else {
                assert(after[i] == before[p]);
            }
        }
        assert forall|other: KeyView| #[trigger] after.contains(other) <==> (other == new
            || before.contains(other)) by {
            if after.contains(other) {
                let i = choose|i: int| 0 <= i < after.len() && after[i] == other;
                if i < at {
                    assert(before[i] == other);
                } else if i > at {
                    assert(before[i - 1] == other);
                }
            }
            if other == new {
                assert(after[at as int] == other);
            }
            if before.contains(other) {
                let i = choose|i: int| 0 <= i < before.len() && before[i] == other;
                if i < at {
                    assert(after[i] == other);
                } else {
                    assert(after[i + 1] == other);
                }
            }
        }
    }
}

/// Puts keys in order and keeps each once.
pub fn normalize_exclusivity_keys(keys: &mut Vec<RenderedExclusivityKey>)
    ensures
        normal_form_of(manifest::views(final(keys)@), manifest::views(old(keys)@)),
{
    let ghost whole = manifest::views(keys@);
    let mut waiting: Vec<RenderedExclusivityKey> = Vec::new();
    std::mem::swap(&mut waiting, keys);
    let ghost mut done: int = 0;
    proof {
        assert(manifest::views(waiting@) =~= whole.skip(0));
    }
    while waiting.len() > 0
        invariant
            0 <= done,
            done + waiting@.len() == whole.len(),
            whole == manifest::views(old(keys)@),
            manifest::views(waiting@) == whole.skip(done),
            keys_in_order(manifest::views(keys@)),
            forall|key: KeyView|
                #[trigger] manifest::views(keys@).contains(key) <==> whole.take(done).contains(key),
        decreases waiting.len(),
    {
        let ghost before = waiting@;
        let ghost kept = manifest::views(keys@);
        let key = waiting.remove(0);
        let ghost new = key@;
        proof {
            assert(new == manifest::views(before)[0]);
            assert(new == whole[done]);
            assert(manifest::views(waiting@) =~= whole.skip(done + 1)) by {
                assert forall|i: int| 0 <= i < waiting@.len() implies manifest::views(waiting@)[i]
                    == #[trigger] whole.skip(done + 1)[i] by {
                    assert(waiting@[i] == before[i + 1]);
                    assert(manifest::views(before)[i + 1] == whole.skip(done)[i + 1]);
                }
            }
        }
        place_key(keys, key);
        proof {
            assert forall|other: KeyView| #[trigger] manifest::views(keys@).contains(other)
                <==> whole.take(done + 1).contains(other) by {
                let longer = whole.take(done + 1);
                let shorter = whole.take(done);
                assert(longer =~= shorter.push(new));
                if longer.contains(other) {
                    let i = choose|i: int| 0 <= i < longer.len() && longer[i] == other;
                    if i < done {
                        assert(shorter[i] == other);
                    }
                }
                if shorter.contains(other) {
                    let i = choose|i: int| 0 <= i < shorter.len() && shorter[i] == other;
                    assert(longer[i] == other);
                }
                if other == new {
                    assert(longer[done] == other);
                }
            }
            done = done + 1;
        }
    }
    assert(whole.take(done) =~= whole);
}

// ---------------------------------------------------------------------------
// Numbers and words of the database
// ---------------------------------------------------------------------------
/// A number as the database keeps it.
pub open spec fn signed_outcome(value: u64) -> Result<i64, StoreErrorView> {
    if value <= i64::MAX {
        Ok(value as i64)
    } else {
        Err(StoreErrorView::InvalidArgument { message: "generation exceeds database range"@ })
    }
}

/// A revision as the database keeps it.
pub fn generation_to_i64(generation: Generation) -> (result: Result<i64, StoreError>)
    ensures
        store::plain_answer(result) == signed_outcome(generation@),
{
    let value: u64 = generation.get();
    if value <= 9_223_372_036_854_775_807 {
        Ok(value as i64)
    } else {
        Err(StoreError::invalid_argument("generation exceeds database range"))
    }
}

/// The state that a word stands for.
pub open spec fn state_outcome(word: Seq<char>) -> Result<MaterializationState, StoreErrorView> {
    if word == "pending"@ {
        Ok(MaterializationState::Pending)
    } else if word == "ready"@ {
        Ok(MaterializationState::Ready)
    } else if word == "failed"@ {
        Ok(MaterializationState::Failed)
    } else if word == "deleting"@ {
        Ok(MaterializationState::Deleting)
    } else if word == "deleted"@ {
        Ok(MaterializationState::Deleted)
    } else {
        Err(StoreErrorView::Internal { message: "stored materialization state is unknown"@ })
    }
}

/// The state that a word stands for.
pub fn materialization_state_from_db(word: &str) -> (result: Result<
    MaterializationState,
    StoreError,
>)
    ensures
        store::plain_answer(result) == state_outcome(word@),
{
    if same_text(word, "pending") {
        Ok(MaterializationState::Pending)
    } else if same_text(word, "ready") {
        Ok(MaterializationState::Ready)
    } else if same_text(word, "failed") {
        Ok(MaterializationState::Failed)
    } else if same_text(word, "deleting") {
        Ok(MaterializationState::Deleting)
    } else if same_text(word, "deleted") {
        Ok(MaterializationState::Deleted)
    } else {
        Err(StoreError::internal("stored materialization state is unknown"))
    }
}

/// A state that was written is read back.
pub proof fn law_written_states_are_read_back(state: MaterializationState)
    ensures
        state_outcome(materialization::state_word(state)) == Ok::<
            MaterializationState,
            StoreErrorView,
        >(state),
{
    materialization::law_state_words_differ(state, MaterializationState::Pending);
    materialization::law_state_words_differ(state, MaterializationState::Ready);
    materialization::law_state_words_differ(state, MaterializationState::Failed);
    materialization::law_state_words_differ(state, MaterializationState::Deleting);
    materialization::law_state_words_differ(state, MaterializationState::Deleted);
}

/// An attempt, or the number of a change, as the database keeps it.
pub open spec fn attempt_outcome(attempt: u64) -> Result<i64, StoreErrorView> {
    if 0 < attempt <= i64::MAX {
        Ok(attempt as i64)
    } else {
        Err(
            StoreErrorView::InvalidArgument {
                message: "lease attempt must be a positive signed 64-bit integer"@,
            },
        )
    }
}

/// An attempt, or the number of a change, as the database keeps it.
pub fn lease_attempt(attempt: u64) -> (result: Result<i64, StoreError>)
    ensures
        store::plain_answer(result) == attempt_outcome(attempt),
{
    if 0 < attempt && attempt <= 9_223_372_036_854_775_807 {
        Ok(attempt as i64)
    } else {
        Err(
            StoreError::invalid_argument(
                "lease attempt must be a positive signed 64-bit integer",
            ),
        )
    }
}

/// The revision before another.
pub open spec fn previous_outcome(generation: u64) -> Result<u64, StoreErrorView> {
    if generation > 0 {
        Ok((generation - 1) as u64)
    } else {
        Err(StoreErrorView::InvalidArgument { message: "generation has no predecessor"@ })
    }
}

/// The revision before another.
pub fn previous_generation(generation: Generation) -> (result: Result<Generation, StoreError>)
    ensures
        store::answer(result) == previous_outcome(generation@),
{
    let value: u64 = generation.get();
    if value > 0 {
        Ok(Generation::new(value - 1))
    } else {
        Err(StoreError::invalid_argument("generation has no predecessor"))
    }
}

/// The revision after the one before a revision is that revision, and the one
/// before the next is, too, as long as there is a next one.
pub proof fn law_previous_undoes_next(generation: u64)
    ensures
        generation > 0 ==> ids::next_generation(previous_outcome(generation)->Ok_0) == generation,
        generation < u64::MAX ==> previous_outcome(ids::next_generation(generation)) == Ok::<
            u64,
            StoreErrorView,
        >(generation),
{
}

/// A limit as the database takes it.
pub fn candidate_limit(limit: usize) -> (result: Result<i64, StoreError>)
    ensures
        store::plain_answer(result) == (if limit <= i64::MAX {
            Ok::<i64, StoreErrorView>(limit as i64)
        } else {
            Err::<i64, StoreErrorView>(
                StoreErrorView::InvalidArgument {
                    message: "reconciliation candidate limit is too large"@,
                },
            )
        }),
{
    if limit as u64 <= 9_223_372_036_854_775_807 {
        Ok(limit as i64)
    } else {
        Err(StoreError::invalid_argument("reconciliation candidate limit is too large"))
    }
}

/// A count that cannot be negative.
pub open spec fn count_outcome(value: i64, message: Seq<char>) -> Result<u64, StoreErrorView> {
    if value >= 0 {
        Ok(value as u64)
    } else {
        Err(StoreErrorView::Internal { message })
    }
}

pub(crate) fn counted(value: i64, message: &str) -> (result: Result<u64, StoreError>)
    ensures
        store::plain_answer(result) == count_outcome(value, message@),
{
    if value >= 0 {
        Ok(value as u64)
    } else {
        Err(StoreError::internal(message))
    }
}

// ---------------------------------------------------------------------------
// Requests
// ---------------------------------------------------------------------------
/// A lease lifetime that the database can add to its own clock: at least a
/// millisecond and at most a day.
pub open spec fn lease_ttl_outcome(ttl: nat) -> Result<i64, StoreErrorView> {
    if ttl > MAX_RECONCILIATION_LEASE_TTL * NANOS_PER_SEC {
        Err(
            StoreErrorView::InvalidArgument {
                message: "materialization reconciliation lease TTL exceeds 24 hours"@,
            },
        )
    } else if ttl < NANOS_PER_MILLI {
        Err(
            StoreErrorView::InvalidArgument {
                message: "materialization reconciliation lease TTL must be at least one millisecond"@,
            },
        )
    } else {
        Ok((ttl / NANOS_PER_MILLI as nat) as i64)
    }
}

/// A lease lifetime that the database can add to its own clock.
pub fn lease_ttl_millis(ttl: Duration) -> (result: Result<i64, StoreError>)
    ensures
        store::plain_answer(result) == lease_ttl_outcome(ttl@),
{
    if ttl.longer_than(Duration::from_secs(MAX_RECONCILIATION_LEASE_TTL)) {
        return Err(
            StoreError::invalid_argument(
                "materialization reconciliation lease TTL exceeds 24 hours",
            ),
        );
    }
    let millis: u128 = ttl.as_millis();
    if millis == 0 {
        return Err(
            StoreError::invalid_argument(
                "materialization reconciliation lease TTL must be at least one millisecond",
            ),
        );
    }
    Ok(millis as i64)
}

/// A lease has an owner.
pub open spec fn owner_verdict(owner: Seq<char>) -> Result<(), StoreErrorView> {
    if text::blank(owner) {
        Err(
            StoreErrorView::InvalidArgument {
                message: "materialization reconciliation owner is required"@,
            },
        )
    } else {
        Ok(())
    }
}

/// Checks that a lease has an owner.
pub fn validate_lease_owner(owner: &str) -> (result: Result<(), StoreError>)
    ensures
        store::plain_answer(result) == owner_verdict(owner@),
{
    if is_blank(owner) {
        return Err(
            StoreError::invalid_argument("materialization reconciliation owner is required"),
        );
    }
    Ok(())
}

/// Checks that an operator gives a name and a reason.
pub fn validate_operator_audit(operator: &str, reason: &str) -> (result: Result<(), StoreError>)
    ensures
        match result {
            Ok(_) => !text::blank(operator@) && !text::blank(reason@),
            Err(error) => (text::blank(operator@) || text::blank(reason@)) && error@ == (
            StoreErrorView::InvalidArgument {
                message: "operator and reason are required for force materialization operations"@,
            }),
        },
{
    if is_blank(operator) || is_blank(reason) {
        return Err(
            StoreError::invalid_argument(
                "operator and reason are required for force materialization operations",
            ),
        );
    }
    Ok(())
}

/// Checks that a key to release is named, once the operator is known.
pub fn validate_force_release(operator: &str, reason: &str, key_name: &str, key_value: &str) -> (result:
    Result<(), StoreError>)
    ensures
        match result {
            Ok(_) => !text::blank(operator@) && !text::blank(reason@) && !text::blank(key_name@)
                && !text::blank(key_value@),
            Err(error) => if text::blank(operator@) || text::blank(reason@) {
                error@ == (StoreErrorView::InvalidArgument {
                    message: "operator and reason are required for force materialization operations"@,
                })
            } else {
                (text::blank(key_name@) || text::blank(key_value@)) && error@ == (
                StoreErrorView::InvalidArgument {
                    message: "force-release key name and value are required"@,
                })
            },
        },
{
    validate_operator_audit(operator, reason)?;
    if is_blank(key_name) || is_blank(key_value) {
        return Err(
            StoreError::invalid_argument("force-release key name and value are required"),
        );
    }
    Ok(())
}

/// A span in whole milliseconds, as the database keeps it.
pub open spec fn millis_outcome(span: nat, message: Seq<char>) -> Result<i64, StoreErrorView> {
    if span / NANOS_PER_MILLI as nat <= i64::MAX {
        Ok((span / NANOS_PER_MILLI as nat) as i64)
    } else {
        Err(StoreErrorView::InvalidArgument { message })
    }
}

fn span_millis(span: Duration, message: &str) -> (result: Result<i64, StoreError>)
    ensures
        store::plain_answer(result) == millis_outcome(span@, message@),
{
    let millis: u128 = span.as_millis();
    if millis <= 9_223_372_036_854_775_807 {
        Ok(millis as i64)
    } else {
        Err(StoreError::invalid_argument(message))
    }
}

/// The time for connections to drain, as the database keeps it.
pub fn drain_grace_millis(drain_grace_timeout: Duration) -> (result: Result<i64, StoreError>)
    ensures
        store::plain_answer(result) == millis_outcome(
            drain_grace_timeout@,
            "drain grace timeout is too large"@,
        ),
{
    span_millis(drain_grace_timeout, "drain grace timeout is too large")
}

/// The age that a ready generation must have, as the database keeps it.
pub fn minimum_ready_millis(minimum_ready_age: Duration) -> (result: Result<i64, StoreError>)
    ensures
        store::plain_answer(result) == millis_outcome(
            minimum_ready_age@,
            "minimum Ready age exceeds database range"@,
        ),
{
    span_millis(minimum_ready_age, "minimum Ready age exceeds database range")
}

// ---------------------------------------------------------------------------
// Steps of an instance's life
// ---------------------------------------------------------------------------
/// What is read of an instance that is about to take a step.
#[derive(Clone, Copy, Debug, PartialEq, Eq, Structural)]
pub struct InstanceStanding {
    pub state: InstanceState,
    pub generation: Generation,
}

/// The revision that a step of an instance makes: the instance must be there, in
/// the revision that the caller expects, and the step must be one it may take.
pub open spec fn step_outcome(
    current: Option<InstanceStanding>,
    expected: u64,
    refusal: Option<Seq<char>>,
) -> Result<u64, StoreErrorView> {
    match current {
        None => Err(StoreErrorView::NotFound { resource: "instance"@ }),
        Some(standing) => if standing.generation@ != expected {
            Err(
                StoreErrorView::GenerationConflict { expected, actual: standing.generation@ },
            )
        } else {
            match refusal {
                Some(message) => Err(StoreErrorView::InvalidArgument { message }),
                None => Ok(ids::next_generation(expected)),
            }
        },
    }
}

/// Checks a step of an instance and tells the revision that it makes. `refusal`
/// tells why the instance may not take the step from where it stands.
pub fn validate_instance_step(
    current: Option<InstanceStanding>,
    expected: Generation,
    refusal: &Option<String>,
) -> (result: Result<Generation, StoreError>)
    ensures
        store::answer(result) == step_outcome(
            current,
            expected@,
            manifest::optional_view(*refusal),
        ),
{
    match current {
        None => Err(StoreError::NotFound { resource: "instance" }),
        Some(standing) => {
            if !standing.generation.same(expected) {
                return Err(
                    StoreError::GenerationConflict { expected, actual: standing.generation },
                );
            }
            match refusal {
                Some(message) => Err(StoreError::invalid_argument(message.as_str())),
                None => Ok(expected.next()),
            }
        },
    }
}

/// A step that is taken makes a later revision, so a second caller that expects
/// the same revision is refused. The last revision there is has none after it.
pub proof fn law_step_is_taken_once(
    current: Option<InstanceStanding>,
    expected: u64,
    refusal: Option<Seq<char>>,
    after: InstanceStanding,
    again: Option<Seq<char>>,
)
    requires
        expected < u64::MAX,
    ensures
        step_outcome(current, expected, refusal) == Ok::<u64, StoreErrorView>(after.generation@)
            ==> step_outcome(Some(after), expected, again) == Err::<u64, StoreErrorView>(
            StoreErrorView::GenerationConflict { expected, actual: after.generation@ },
        ),
{
}

/// When an instance may go to sleep by itself: not before its generation has been
/// ready for long enough.
pub open spec fn ready_age_verdict(
    ready_at: Option<i64>,
    now: i64,
    minimum_millis: i64,
) -> Result<(), StoreErrorView> {
    match ready_at {
        None => Err(
            StoreErrorView::InvalidArgument {
                message: "automatic sleep requires this generation's Ready materialization"@,
            },
        ),
        Some(ready_at) => if ready_at + minimum_millis > i64::MAX || ready_at + minimum_millis
            < i64::MIN {
            Err(
                StoreErrorView::InvalidArgument {
                    message: "activation deadline exceeds database range"@,
                },
            )
        } else if now < ready_at + minimum_millis {
            Err(
                StoreErrorView::SleepDeferred {
                    retry_after: ((ready_at + minimum_millis - now) * NANOS_PER_MILLI) as nat,
                },
            )
        } else {
            Ok(())
        },
    }
}

/// Checks that an instance may go to sleep by itself.
pub fn validate_ready_age(ready_at: Option<i64>, now: i64, minimum_millis: i64) -> (result: Result<
    (),
    StoreError,
>)
    ensures
        store::plain_answer(result) == ready_age_verdict(ready_at, now, minimum_millis),
{
    match ready_at {
        None => Err(
            StoreError::invalid_argument(
                "automatic sleep requires this generation's Ready materialization",
            ),
        ),
        Some(ready_at) => match ready_at.checked_add(minimum_millis) {
            None => Err(
                StoreError::invalid_argument("activation deadline exceeds database range"),
            ),
            Some(not_before) => {
                if now < not_before {
                    let wait: u64 = (not_before as i128 - now as i128) as u64;
                    return Err(
                        StoreError::SleepDeferred { retry_after: Duration::from_millis(wait) },
                    );
                }
                Ok(())
            },
        },
    }
}

/// A deferred sleep that waits as long as it is told to is not deferred again.
pub proof fn law_deferred_sleep_comes(ready_at: i64, now: i64, minimum_millis: i64, later: i64)
    requires
        ready_age_verdict(Some(ready_at), now, minimum_millis) is Err,
        ready_age_verdict(Some(ready_at), now, minimum_millis)->Err_0 is SleepDeferred,
        (later - now) * NANOS_PER_MILLI >= ready_age_verdict(
            Some(ready_at),
            now,
            minimum_millis,
        )->Err_0->SleepDeferred_retry_after,
    ensures
        ready_age_verdict(Some(ready_at), later, minimum_millis) is Ok,
{
}

/// What is read of a ready materialization: when it became ready, and the clock of
/// the database.
#[derive(Clone, Copy, Debug, PartialEq, Eq, Structural)]
pub struct ReadyRow {
    pub state_entered_at: i64,
    pub now: i64,
}

/// An instance has been ready for as long as its request to sleep asks for. An
/// operator's request asks for nothing.
pub open spec fn ready_long_enough(request: BeginSleepRequest, ready: Option<ReadyRow>) -> Result<
    (),
    StoreErrorView,
> {
    match request.minimum_ready_age {
        None => Ok(()),
        Some(minimum) => match millis_outcome(
            minimum@,
            "minimum Ready age exceeds database range"@,
        ) {
            Err(error) => Err(error),
            Ok(minimum_millis) => match signed_outcome(request.expected_running_generation@) {
                Err(error) => Err(error),
                Ok(_) => match ready {
                    None => ready_age_verdict(None, 0, minimum_millis),
                    Some(row) => ready_age_verdict(
                        Some(row.state_entered_at),
                        row.now,
                        minimum_millis,
                    ),
                },
            },
        },
    }
}

/// What is kept of a materialization whose instance begins to sleep. Its objects and
/// its keys stay until they are removed, in the revision that ran; nobody reaches
/// it any more, and nobody works on it yet.
pub open spec fn put_to_sleep(active: MaterializationRecord) -> MaterializationRecord {
    MaterializationRecord {
        state: MaterializationState::Deleting,
        backend: None,
        reconciliation_lease: None,
        ..active
    }
}

/// What is written when an instance begins to sleep.
#[derive(Clone, Debug, PartialEq, Eq)]
pub struct SleepPlan {
    pub instance_state: InstanceState,
    /// The revision in which the instance drains.
    pub draining_generation: i64,
    /// The revision in which its materialization must be found.
    pub running_generation: i64,
    /// For how long nothing is removed.
    pub drain_grace_millis: i64,
    /// The materialization as it is kept, where there is one.
    pub materialization: Option<MaterializationRecord>,
}

/// What is kept of the active materialization of an instance that begins to sleep:
/// it must be of the revision that ran.
pub open spec fn sleeping_outcome(active: Option<MaterializationRecord>, running: u64) -> Result<
    Option<MaterializationRecord>,
    StoreErrorView,
> {
    match active {
        None => Ok(None),
        Some(active) => if active.instance_generation@ == running {
            Ok(Some(put_to_sleep(active)))
        } else {
            Err(
                StoreErrorView::GenerationConflict {
                    expected: running,
                    actual: active.instance_generation@,
                },
            )
        },
    }
}

/// What is written when an instance begins to sleep: it must be there, in the
/// revision that the request expects, in a state from which it may sleep, and for
/// long enough.
pub open spec fn sleep_outcome(
    request: BeginSleepRequest,
    current: Option<InstanceStanding>,
    refusal: Option<Seq<char>>,
    ready: Option<ReadyRow>,
    active: Option<MaterializationRecord>,
) -> Result<SleepPlan, StoreErrorView> {
    let running = request.expected_running_generation@;
    match step_outcome(current, running, refusal) {
        Err(error) => Err(error),
        Ok(draining) => match ready_long_enough(request, ready) {
            Err(error) => Err(error),
            Ok(_) => match signed_outcome(draining) {
                Err(error) => Err(error),
                Ok(draining_generation) => match signed_outcome(running) {
                    Err(error) => Err(error),
                    Ok(running_generation) => match millis_outcome(
                        request.drain_grace_timeout@,
                        "drain grace timeout is too large"@,
                    ) {
                        Err(error) => Err(error),
                        Ok(drain_grace_millis) => match sleeping_outcome(active, running) {
                            Err(error) => Err(error),
                            Ok(materialization) => Ok(
                                SleepPlan {
                                    instance_state: InstanceState::Draining,
                                    draining_generation,
                                    running_generation,
                                    drain_grace_millis,
                                    materialization,
                                },
                            ),
                        },
                    },
                },
            },
        },
    }
}

fn sleeping_materialization(active: Option<MaterializationRecord>, running: Generation) -> (result:
    Result<Option<MaterializationRecord>, StoreError>)
    ensures
        store::plain_answer(result) == sleeping_outcome(active, running@),
{
    match active {
        None => Ok(None),
        Some(active) => {
            validate_active_generation(Some(active.instance_generation), running)?;
            let mut kept = active;
            kept.state = MaterializationState::Deleting;
            kept.backend = None;
            kept.reconciliation_lease = None;
            Ok(Some(kept))
        },
    }
}

fn validate_ready_long_enough(request: &BeginSleepRequest, ready: Option<ReadyRow>) -> (result:
    Result<(), StoreError>)
    ensures
        store::plain_answer(result) == ready_long_enough(*request, ready),
{
    match request.minimum_ready_age {
        None => Ok(()),
        Some(minimum) => {
            let minimum_millis: i64 = minimum_ready_millis(minimum)?;
            generation_to_i64(request.expected_running_generation)?;
            match ready {
                None => validate_ready_age(None, 0, minimum_millis),
                Some(row) => validate_ready_age(
                    Some(row.state_entered_at),
                    row.now,
                    minimum_millis,
                ),
            }
        },
    }
}

/// Decides whether an instance begins to sleep, from what one transaction reads of
/// it. `refusal` tells why it may not from where it stands; `active` is its
/// materialization in the target, unless that has been deleted.
pub fn begin_sleep(
    request: &BeginSleepRequest,
    current: Option<InstanceStanding>,
    refusal: &Option<String>,
    ready: Option<ReadyRow>,
    active: Option<MaterializationRecord>,
) -> (result: Result<SleepPlan, StoreError>)
    ensures
        store::plain_answer(result) == sleep_outcome(
            *request,
            current,
            manifest::optional_view(*refusal),
            ready,
            active,
        ),
{
    let draining = validate_instance_step(current, request.expected_running_generation, refusal)?;
    validate_ready_long_enough(request, ready)?;
    let draining_generation: i64 = generation_to_i64(draining)?;
    let running_generation: i64 = generation_to_i64(request.expected_running_generation)?;
    let drain_grace_millis: i64 = drain_grace_millis(request.drain_grace_timeout)?;
    let materialization = sleeping_materialization(active, request.expected_running_generation)?;
    Ok(
        SleepPlan {
            instance_state: InstanceState::Draining,
            draining_generation,
            running_generation,
            drain_grace_millis,
            materialization,
        },
    )
}

/// An instance never goes to sleep by itself before it has been ready for long
/// enough, and it drains one revision past the one that ran.
pub proof fn law_sleep_waits_its_turn(
    request: BeginSleepRequest,
    current: Option<InstanceStanding>,
    refusal: Option<Seq<char>>,
    ready: Option<ReadyRow>,
    active: Option<MaterializationRecord>,
)
    ensures
        sleep_outcome(request, current, refusal, ready, active) matches Ok(plan) ==> {
            &&& current matches Some(standing) && standing.generation@ == plan.running_generation
            &&& plan.draining_generation == plan.running_generation + 1
            &&& request.minimum_ready_age matches Some(minimum) ==> (ready matches Some(row)
                && row.now >= row.state_entered_at + minimum@ / NANOS_PER_MILLI as nat)
        },
{
}

/// An instance that begins to sleep drains, and its materialization is to be
/// deleted. Until that has happened the materialization keeps its objects, its keys
/// and its place, in the revision that ran.
pub proof fn law_sleep_lets_go_of_nothing(
    request: BeginSleepRequest,
    current: Option<InstanceStanding>,
    refusal: Option<Seq<char>>,
    ready: Option<ReadyRow>,
    active: Option<MaterializationRecord>,
)
    ensures
        sleep_outcome(request, current, refusal, ready, active) matches Ok(plan) ==> {
            &&& plan.instance_state == InstanceState::Draining
            &&& plan.materialization is Some <==> active is Some
            &&& active matches Some(active) ==> {
                let kept = plan.materialization->Some_0;
                &&& kept.state == MaterializationState::Deleting
                &&& kept.rendered_objects == active.rendered_objects
                &&& kept.exclusivity_keys == active.exclusivity_keys
                &&& kept.id == active.id
                &&& kept.instance_id == active.instance_id
                &&& kept.target == active.target
                &&& kept.instance_generation@ == plan.running_generation
                &&& kept.projection_generation == active.projection_generation
                &&& kept.backend_generation == active.backend_generation
                &&& kept.backend is None
                &&& kept.reconciliation_lease is None
            }
        },
{
}

/// The incarnation of an instance that has become ready: the one that its objects
/// were made in, and the running revision where none is known.
pub fn ready_projection(prior: Option<Generation>, running: Generation) -> (projection: Generation)
    ensures
        projection@ == (match prior {
            Some(prior) => prior@,
            None => running@,
        }),
{
    match prior {
        Some(prior) => prior,
        None => running,
    }
}

/// The materialization to keep once a wake is complete.
pub fn ready_record(
    request: CompleteWakeRequest,
    running: Generation,
    prior_projection: Option<Generation>,
) -> (record: RecordMaterializationRequest)
    ensures
        record.instance_id == request.instance_id,
        record.instance_generation == running,
        record.projection_generation@ == (match prior_projection {
            Some(prior) => prior@,
            None => running@,
        }),
        record.target == request.target,
        record.state == MaterializationState::Ready,
        record.backend == Some(request.backend),
        record.backend_generation == request.backend_generation,
        record.rendered_objects == request.rendered_objects,
        record.exclusivity_keys == request.exclusivity_keys,
{
    let mut record = RecordMaterializationRequest::new(
        request.instance_id,
        running,
        request.target,
        MaterializationState::Ready,
        request.backend_generation,
    );
    record.projection_generation = ready_projection(prior_projection, running);
    record.backend = Some(request.backend);
    record.rendered_objects = request.rendered_objects;
    record.exclusivity_keys = request.exclusivity_keys;
    record
}

/// What is written when a wake is complete.
#[derive(Clone, Debug, PartialEq, Eq)]
pub struct WakeCompletion {
    pub instance_state: InstanceState,
    /// The revision in which the instance runs.
    pub running_generation: i64,
    pub record: RecordMaterializationRequest,
}

/// The revisions in which an instance takes a step, as they are written.
pub open spec fn written_step(
    current: Option<InstanceStanding>,
    expected: u64,
    refusal: Option<Seq<char>>,
) -> Result<i64, StoreErrorView> {
    match step_outcome(current, expected, refusal) {
        Err(error) => Err(error),
        Ok(next) => signed_outcome(next),
    }
}

/// What is kept of an instance that runs: the objects, the keys and the place that
/// the request names, in the revision that runs and in the incarnation that the
/// objects were made in.
pub open spec fn keeps_ready(
    record: RecordMaterializationRequest,
    request: CompleteWakeRequest,
    running: i64,
    prior_projection: Option<Generation>,
) -> bool {
    &&& record.instance_id == request.instance_id
    &&& record.instance_generation@ == running
    &&& record.projection_generation@ == (match prior_projection {
        Some(prior) => prior@,
        None => record.instance_generation@,
    })
    &&& record.target == request.target
    &&& record.state == MaterializationState::Ready
    &&& record.backend == Some(request.backend)
    &&& record.backend_generation == request.backend_generation
    &&& record.rendered_objects == request.rendered_objects
    &&& normal_form_of(
        manifest::views(record.exclusivity_keys@),
        manifest::views(request.exclusivity_keys@),
    )
}

/// Decides whether a wake is complete, from what one transaction reads of the
/// instance and of the materialization that it was prepared with.
pub fn complete_wake(
    request: CompleteWakeRequest,
    current: Option<InstanceStanding>,
    refusal: &Option<String>,
    prior_projection: Option<Generation>,
) -> (result: Result<WakeCompletion, StoreError>)
    ensures
        match result {
            Ok(completion) => {
                &&& completion.instance_state == InstanceState::Running
                &&& written_step(
                    current,
                    request.expected_waking_generation@,
                    manifest::optional_view(*refusal),
                ) == Ok::<i64, StoreErrorView>(completion.running_generation)
                &&& keeps_ready(
                    completion.record,
                    request,
                    completion.running_generation,
                    prior_projection,
                )
            },
            Err(error) => written_step(
                current,
                request.expected_waking_generation@,
                manifest::optional_view(*refusal),
            ) == Err::<i64, StoreErrorView>(error@),
        },
{
    let running = validate_instance_step(current, request.expected_waking_generation, refusal)?;
    let running_generation: i64 = generation_to_i64(running)?;
    let mut request = request;
    normalize_exclusivity_keys(&mut request.exclusivity_keys);
    Ok(
        WakeCompletion {
            instance_state: InstanceState::Running,
            running_generation,
            record: ready_record(request, running, prior_projection),
        },
    )
}

/// What is kept of a materialization that is no more: no objects, no keys, and
/// nobody reaches it or works on it.
pub open spec fn ends_without_rest(kept: MaterializationRecord, active: MaterializationRecord) -> bool {
    &&& kept == (MaterializationRecord {
        state: MaterializationState::Deleted,
        instance_generation: kept.instance_generation,
        backend: None,
        rendered_objects: kept.rendered_objects,
        exclusivity_keys: kept.exclusivity_keys,
        reconciliation_lease: None,
        ..active
    })
    &&& kept.rendered_objects@.len() == 0
    &&& kept.exclusivity_keys@.len() == 0
}

/// What is written when an instance that drained is cold.
#[derive(Clone, Debug, PartialEq, Eq)]
pub struct ColdPlan {
    pub instance_state: InstanceState,
    /// The revision in which the instance is cold.
    pub cold_generation: i64,
    /// The materialization as it is kept, where there is one.
    pub materialization: Option<MaterializationRecord>,
}

/// Decides whether an instance that drained is cold now. Its materialization is
/// then ended in the same revision, without objects and without keys. `active` is
/// its materialization in the target, unless that has been deleted.
pub fn finalize_sleep(
    request: &FinalizeSleepRequest,
    current: Option<InstanceStanding>,
    refusal: &Option<String>,
    active: Option<MaterializationRecord>,
) -> (result: Result<ColdPlan, StoreError>)
    ensures
        match result {
            Ok(plan) => {
                &&& plan.instance_state == InstanceState::Cold
                &&& written_step(
                    current,
                    request.expected_draining_generation@,
                    manifest::optional_view(*refusal),
                ) == Ok::<i64, StoreErrorView>(plan.cold_generation)
                &&& plan.materialization is Some <==> active is Some
                &&& active matches Some(active) ==> {
                    &&& ends_without_rest(plan.materialization->Some_0, active)
                    &&& plan.materialization->Some_0.instance_generation@ == plan.cold_generation
                }
            },
            Err(error) => written_step(
                current,
                request.expected_draining_generation@,
                manifest::optional_view(*refusal),
            ) == Err::<i64, StoreErrorView>(error@),
        },
{
    let cold = validate_instance_step(current, request.expected_draining_generation, refusal)?;
    let cold_generation: i64 = generation_to_i64(cold)?;
    let materialization = match active {
        None => None,
        Some(active) => {
            let mut kept = active;
            kept.state = MaterializationState::Deleted;
            kept.instance_generation = cold;
            kept.backend = None;
            kept.rendered_objects = Vec::new();
            kept.exclusivity_keys = Vec::new();
            kept.reconciliation_lease = None;
            Some(kept)
        },
    };
    Ok(ColdPlan { instance_state: InstanceState::Cold, cold_generation, materialization })
}

// ---------------------------------------------------------------------------
// Rows under a lease
// ---------------------------------------------------------------------------
/// What is read of the lease on a materialization.
#[derive(Clone, Debug, PartialEq, Eq)]
pub struct LeaseRow {
    pub instance_generation: i64,
    pub owner: Option<String>,
    pub attempt: i64,
    pub expires_at: Option<i64>,
}

/// A write under a lease is allowed: the materialization is there in the expected
/// revision, the caller holds the lease of this very attempt, the lease has not
/// run out by the clock of the database, and no change of the cluster is open.
pub open spec fn lease_verdict(
    row: Option<LeaseRow>,
    expected_generation: i64,
    owner: Seq<char>,
    attempt: u64,
    now: i64,
    effect_open: bool,
) -> Result<(), StoreErrorView> {
    match row {
        None => Err(StoreErrorView::NotFound { resource: "materialization"@ }),
        Some(row) => if row.instance_generation != expected_generation {
            if row.instance_generation < 0 {
                Err(
                    StoreErrorView::Internal {
                        message: "stored materialization generation was negative"@,
                    },
                )
            } else {
                Err(
                    StoreErrorView::GenerationConflict {
                        expected: expected_generation as u64,
                        actual: row.instance_generation as u64,
                    },
                )
            }
        } else if manifest::optional_view(row.owner) != Some(owner) {
            Err(
                StoreErrorView::LeaseConflict {
                    message: "materialization reconciliation lease is not currently owned"@,
                },
            )
        } else if attempt_outcome(attempt) is Err {
            Err(attempt_outcome(attempt)->Err_0)
        } else if row.attempt != attempt {
            Err(
                StoreErrorView::LeaseConflict {
                    message: "materialization reconciliation lease is not currently owned"@,
                },
            )
        } else if row.expires_at is None || row.expires_at->0 <= now {
            Err(
                StoreErrorView::LeaseConflict {
                    message: "materialization reconciliation lease is expired"@,
                },
            )
        } else if effect_open {
            Err(
                StoreErrorView::LeaseConflict {
                    message: "Kubernetes effect outcome remains unacknowledged"@,
                },
            )
        } else {
            Ok(())
        },
    }
}

/// Checks that a write under a lease is allowed.
pub fn ensure_reconciliation_lease(
    row: &Option<LeaseRow>,
    expected_generation: i64,
    owner: &str,
    attempt: u64,
    now: i64,
    effect_open: bool,
) -> (result: Result<(), StoreError>)
    requires
        expected_generation >= 0,
    ensures
        store::plain_answer(result) == lease_verdict(
            *row,
            expected_generation,
            owner@,
            attempt,
            now,
            effect_open,
        ),
{
    match row {
        None => Err(StoreError::NotFound { resource: "materialization" }),
        Some(row) => {
            if row.instance_generation != expected_generation {
                let actual: u64 = counted(
                    row.instance_generation,
                    "stored materialization generation was negative",
                )?;
                return Err(
                    StoreError::GenerationConflict {
                        expected: Generation::new(expected_generation as u64),
                        actual: Generation::new(actual),
                    },
                );
            }
            let owned = match &row.owner {
                Some(actual) => same_text(actual.as_str(), owner),
                None => false,
            };
            if !owned || row.attempt != lease_attempt(attempt)? {
                return Err(
                    StoreError::LeaseConflict {
                        message: "materialization reconciliation lease is not currently owned".to_owned(),
                    },
                );
            }
            let live = match row.expires_at {
                Some(expires_at) => expires_at > now,
                None => false,
            };
            if !live {
                return Err(
                    StoreError::LeaseConflict {
                        message: "materialization reconciliation lease is expired".to_owned(),
                    },
                );
            }
            if effect_open {
                return Err(
                    StoreError::LeaseConflict {
                        message: "Kubernetes effect outcome remains unacknowledged".to_owned(),
                    },
                );
            }
            Ok(())
        },
    }
}

/// At most one of two attempts may write under the lease of one row, and once it
/// has run out none may.
pub proof fn law_one_holder_per_lease(
    row: LeaseRow,
    generation: i64,
    owner: Seq<char>,
    attempt: u64,
    other: Seq<char>,
    other_attempt: u64,
    now: i64,
)
    ensures
        lease_verdict(Some(row), generation, owner, attempt, now, false) is Ok && lease_verdict(
            Some(row),
            generation,
            other,
            other_attempt,
            now,
            false,
        ) is Ok ==> owner == other && attempt == other_attempt,
        lease_verdict(Some(row), generation, owner, attempt, now, false) is Ok ==> (row.expires_at
            matches Some(expires_at) && now < expires_at),
        lease_verdict(Some(row), generation, owner, attempt, now, true) is Err,
{
}

// ---------------------------------------------------------------------------
// Rows in another revision
// ---------------------------------------------------------------------------
/// Checks that an active materialization, where there is one, is of the expected
/// revision.
pub fn validate_active_generation(active: Option<Generation>, expected: Generation) -> (result: Result<
    (),
    StoreError,
>)
    ensures
        match result {
            Ok(_) => active matches Some(active) ==> active@ == expected@,
            Err(error) => active matches Some(active) && active@ != expected@ && error@ == (
            StoreErrorView::GenerationConflict { expected: expected@, actual: active@ }),
        },
{
    match active {
        None => Ok(()),
        Some(active) => {
            if active.same(expected) {
                Ok(())
            } else {
                Err(StoreError::GenerationConflict { expected, actual: active })
            }
        },
    }
}

/// An instance is there in the expected revision.
pub open spec fn instance_generation_verdict(actual: Option<i64>, expected: u64) -> Result<
    (),
    StoreErrorView,
> {
    match actual {
        None => Err(StoreErrorView::NotFound { resource: "instance"@ }),
        Some(actual) => match signed_outcome(expected) {
            Err(error) => Err(error),
            Ok(expected_row) => if actual == expected_row {
                Ok(())
            } else if actual < 0 {
                Err(
                    StoreErrorView::Internal {
                        message: "stored instance generation was negative"@,
                    },
                )
            } else {
                Err(StoreErrorView::GenerationConflict { expected, actual: actual as u64 })
            },
        },
    }
}

/// Checks that an instance is there in the expected revision.
pub fn ensure_instance_generation(actual: Option<i64>, expected: Generation) -> (result: Result<
    (),
    StoreError,
>)
    ensures
        store::plain_answer(result) == instance_generation_verdict(actual, expected@),
{
    match actual {
        None => Err(StoreError::NotFound { resource: "instance" }),
        Some(actual) => {
            let expected_row: i64 = generation_to_i64(expected)?;
            if actual == expected_row {
                return Ok(());
            }
            let found: u64 = counted(actual, "stored instance generation was negative")?;
            Err(StoreError::GenerationConflict { expected, actual: Generation::new(found) })
        },
    }
}

/// Decides whether a materialization is kept, from the revision that one transaction
/// reads of its instance. What is kept holds the keys in their normal form.
pub fn record_materialization(request: RecordMaterializationRequest, actual: Option<i64>) -> (result:
    Result<RecordMaterializationRequest, StoreError>)
    ensures
        match result {
            Ok(record) => {
                &&& instance_generation_verdict(actual, request.instance_generation@) is Ok
                &&& record == (RecordMaterializationRequest {
                    exclusivity_keys: record.exclusivity_keys,
                    ..request
                })
                &&& normal_form_of(
                    manifest::views(record.exclusivity_keys@),
                    manifest::views(request.exclusivity_keys@),
                )
            },
            Err(error) => instance_generation_verdict(actual, request.instance_generation@)
                == Err::<(), StoreErrorView>(error@),
        },
{
    ensure_instance_generation(actual, request.instance_generation)?;
    let mut record = request;
    normalize_exclusivity_keys(&mut record.exclusivity_keys);
    Ok(record)
}

/// Why a materialization of an earlier backend was not kept.
pub fn backend_generation_rewind_error(existing: Option<i64>, reported: BackendGeneration) -> (error:
    StoreError)
    ensures
        error@ == (match existing {
            Some(existing) => StoreErrorView::InvalidArgument {
                message: "materialization backend generation rewind rejected: existing backend generation "@
                    + text::signed_decimal(existing as int)
                    + " is newer than reported backend generation "@ + text::decimal(
                    reported@ as nat,
                ),
            },
            None => StoreErrorView::Internal {
                message: "materialization backend generation rewind rejected but existing projection was not found"@,
            },
        }),
{
    match existing {
        Some(existing) => {
            let message =
                "materialization backend generation rewind rejected: existing backend generation ".to_owned().concat(
                signed_decimal_text(existing).as_str()).concat(
                " is newer than reported backend generation ",
            ).concat(decimal_text(reported.get()).as_str());
            StoreError::invalid_argument(message.as_str())
        },
        None => StoreError::internal(
            "materialization backend generation rewind rejected but existing projection was not found",
        ),
    }
}

} // verus!
