//! Failures, and changes of routes, as the store keeps them.

use crate::duration::{Duration, NANOS_PER_MILLI};
use crate::ids::Generation;
use crate::json::{self, Json, JsonView};
use crate::manifest;
use crate::materialization::RenderedObjectRef;
use crate::runtime_work::{MaterializationWorkStatus, UncertainMaterializationEffect};
use crate::store::{self, StoreError, StoreErrorView};
use crate::text::{self, shorten};
use vstd::prelude::*;

verus! {

// ---------------------------------------------------------------------------
// Changes of routes
// ---------------------------------------------------------------------------
/// The limit nearest to one that is asked for.
pub open spec fn limit_of(limit: u32) -> u32 {
    if limit < 1 {
        1
    } else if limit > 1024 {
        1024
    } else {
        limit
    }
}

/// A limit between one and a thousand and twenty-four.
pub fn bounded_limit(limit: u32) -> (bounded: u32)
    ensures
        bounded == limit_of(limit),
{
    if limit < 1 {
        1
    } else if limit > 1024 {
        1024
    } else {
        limit
    }
}

/// Checks that a place in the changes fits the database.
pub fn route_cursor(cursor: u64) -> (result: Result<i64, StoreError>)
    ensures
        store::plain_answer(result) == (if cursor <= i64::MAX {
            Ok::<i64, StoreErrorView>(cursor as i64)
        } else {
            Err::<i64, StoreErrorView>(
                StoreErrorView::InvalidArgument { message: "route cursor overflow"@ },
            )
        }),
{
    if cursor <= 9_223_372_036_854_775_807 {
        Ok(cursor as i64)
    } else {
        Err(StoreError::invalid_argument("route cursor overflow"))
    }
}

/// One change that the store kept.
pub struct RouteEvent {
    pub revision: Option<u64>,
    pub payload: Json,
}

/// Changes of routes since a place, and the place to go on from.
#[derive(Clone, Debug, PartialEq, Eq)]
pub struct DurableRouteChanges {
    pub cursor: u64,
    pub reset: bool,
    pub events: Vec<Json>,
}

/// A reader must start over: it is ahead of the store, or changes that it has not
/// seen are no longer kept.
pub open spec fn must_reset(cursor: i64, current: i64, oldest: Option<i64>) -> bool {
    cursor > current || (cursor < current && match oldest {
        Some(oldest) => cursor < oldest - 1,
        None => true,
    })
}

/// The place to go on from.
pub open spec fn next_cursor(reset: bool, current: i64, events: Seq<RouteEvent>) -> u64 {
    if reset || events.len() == 0 {
        current as u64
    } else {
        match events.last().revision {
            Some(revision) => revision,
            None => current as u64,
        }
    }
}

/// The payloads of some changes.
pub open spec fn payloads(events: Seq<RouteEvent>) -> Seq<JsonView> {
    Seq::new(events.len(), |i: int| events[i].payload@)
}

/// The changes that a reader gets: all that follow its place, or none and the word
/// to start over.
pub fn route_changes(cursor: i64, current: i64, oldest: Option<i64>, events: Vec<RouteEvent>) -> (changes:
    DurableRouteChanges)
    requires
        oldest matches Some(oldest) ==> oldest > i64::MIN,
    ensures
        changes.reset == must_reset(cursor, current, oldest),
        changes.cursor == next_cursor(changes.reset, current, events@),
        changes.reset ==> changes.events@.len() == 0,
        !changes.reset ==> json::json_views(changes.events@) == payloads(events@),
{
    let lost = match oldest {
        Some(oldest) => cursor < oldest - 1,
        None => true,
    };
    let reset = cursor > current || (cursor < current && lost);
    if reset {
        return DurableRouteChanges { cursor: current as u64, reset, events: Vec::new() };
    }
    let length: usize = events.len();
    let next: u64 = if length == 0 {
        current as u64
    } else {
        match events[length - 1].revision {
            Some(revision) => revision,
            None => current as u64,
        }
    };
    let mut kept: Vec<Json> = Vec::new();
    let mut at: usize = 0;
    while at < length
        invariant
            at <= length,
            length == events@.len(),
            kept@.len() == at,
            forall|i: int| 0 <= i < at ==> (#[trigger] kept@[i])@ == events@[i].payload@,
        decreases length - at,
    {
        kept.push(events[at].payload.clone());
        at = at + 1;
    }
    assert(json::json_views(kept@) =~= payloads(events@));
    DurableRouteChanges { cursor: next, reset, events: kept }
}

/// A reader that need not start over misses nothing: whatever happened after its
/// place is still kept, or nothing happened.
pub proof fn law_no_change_is_missed(cursor: i64, current: i64, oldest: Option<i64>, missed: i64)
    requires
        !must_reset(cursor, current, oldest),
        cursor < missed <= current,
    ensures
        oldest matches Some(oldest) && oldest <= missed,
{
}

// ---------------------------------------------------------------------------
// Failures
// ---------------------------------------------------------------------------
/// What kind of failure it was.
#[derive(Clone, Copy, Debug, PartialEq, Eq, Structural)]
pub enum FailureKind {
    Uncertain,
    Deadline,
    Permanent,
    Transient,
}

/// The word for a kind of failure.
pub open spec fn failure_word(kind: FailureKind) -> Seq<char> {
    match kind {
        FailureKind::Uncertain => "uncertain"@,
        FailureKind::Deadline => "deadline"@,
        FailureKind::Permanent => "permanent"@,
        FailureKind::Transient => "transient"@,
    }
}

impl FailureKind {
    /// The word for the kind.
    pub fn as_str(self) -> (word: &'static str)
        ensures
            word@ == failure_word(self),
    {
        match self {
            FailureKind::Uncertain => "uncertain",
            FailureKind::Deadline => "deadline",
            FailureKind::Permanent => "permanent",
            FailureKind::Transient => "transient",
        }
    }
}

/// What is read of a materialization whose work failed.
#[derive(Clone, Debug, PartialEq, Eq)]
pub struct FailedRow {
    pub pending: bool,
    pub failure_count: i32,
    pub lease_expires_at: Option<i64>,
    pub operation_deadline: i64,
    pub uncertain: bool,
}

/// What is written about a failure.
#[derive(Clone, Debug, PartialEq, Eq)]
pub struct FailureRecord {
    pub kind: FailureKind,
    pub count: i32,
    pub delay_millis: i64,
    pub message: String,
    pub cleanup_required: bool,
}

/// What kind of failure it was. While a change of the cluster is open, nothing
/// else is known.
pub open spec fn failure_kind(uncertain: bool, expired: bool, permanent: bool) -> FailureKind {
    if uncertain {
        FailureKind::Uncertain
    } else if expired {
        FailureKind::Deadline
    } else if permanent {
        FailureKind::Permanent
    } else {
        FailureKind::Transient
    }
}

/// The failures so far, this one included.
pub open spec fn failures_after(failure_count: i32) -> i32 {
    if failure_count < i32::MAX {
        (failure_count + 1) as i32
    } else {
        failure_count
    }
}

/// How long to wait before trying again: twice as long after each failure, up to
/// thirty-two seconds.
pub open spec fn retry_delay(count: i32) -> int {
    if count <= 0 {
        1000
    } else if count == 1 {
        2000
    } else if count == 2 {
        4000
    } else if count == 3 {
        8000
    } else if count == 4 {
        16000
    } else {
        32000
    }
}

/// No more attempts are made: trying again will not help, or the time is up. An
/// open change of the cluster never ends them.
pub open spec fn ends_attempts(kind: FailureKind) -> bool {
    kind == FailureKind::Permanent || kind == FailureKind::Deadline
}

/// The longest message that is kept.
pub const FAILURE_MESSAGE_LENGTH: usize = 512;

fn delay_for(count: i32) -> (delay: i64)
    requires
        count >= 0,
    ensures
        delay == retry_delay(count),
{
    match count {
        0 => 1000,
        1 => 2000,
        2 => 4000,
        3 => 8000,
        4 => 16000,
        _ => 32000,
    }
}

/// What is written about a failure.
pub open spec fn writes_failure(
    record: Option<FailureRecord>,
    row: FailedRow,
    now: i64,
    permanent: bool,
    message: Seq<char>,
) -> bool {
    match record {
        None => row.lease_expires_at matches Some(expires_at) ==> expires_at <= now,
        Some(record) => {
            &&& row.lease_expires_at matches Some(expires_at) && now < expires_at
            &&& record.kind == failure_kind(
                row.uncertain,
                row.operation_deadline <= now,
                permanent,
            )
            &&& record.count == failures_after(row.failure_count)
            &&& record.delay_millis == retry_delay(record.count)
            &&& record.message@ == text::shortened(message, FAILURE_MESSAGE_LENGTH as int)
            &&& record.cleanup_required == (ends_attempts(record.kind) && row.pending)
        },
    }
}

/// What to write about a failure, or nothing where the lease of the one who
/// reports it has run out by the clock of the database.
pub fn failure_record(row: &FailedRow, now: i64, permanent: bool, message: &str) -> (record: Option<
    FailureRecord,
>)
    requires
        row.failure_count >= -1,
    ensures
        writes_failure(record, *row, now, permanent, message@),
{
    let live = match row.lease_expires_at {
        Some(expires_at) => expires_at > now,
        None => false,
    };
    if !live {
        return None;
    }
    let expired = row.operation_deadline <= now;
    let terminal = !row.uncertain && (permanent || expired);
    let kind = if row.uncertain {
        FailureKind::Uncertain
    } else if expired {
        FailureKind::Deadline
    } else if permanent {
        FailureKind::Permanent
    } else {
        FailureKind::Transient
    };
    let count: i32 = if row.failure_count < 2_147_483_647 {
        row.failure_count + 1
    } else {
        row.failure_count
    };
    Some(
        FailureRecord {
            kind,
            count,
            delay_millis: delay_for(count),
            message: shorten(message, FAILURE_MESSAGE_LENGTH),
            cleanup_required: terminal && row.pending,
        },
    )
}

/// While a change of the cluster is open, the work on a materialization never ends
/// in failure, and nothing is cleaned up.
pub proof fn law_open_effects_block_cleanup(expired: bool, permanent: bool)
    ensures
        !ends_attempts(failure_kind(true, expired, permanent)),
        ends_attempts(failure_kind(false, expired, permanent)) <==> expired || permanent,
{
}

/// The time between attempts never shrinks as failures add up, and stays between
/// one and thirty-two seconds.
pub proof fn law_delay_grows(count: i32, later: i32)
    requires
        count <= later,
    ensures
        1000 <= retry_delay(count) <= retry_delay(later) <= 32000,
        0 < count < 5 ==> retry_delay(count) == 2 * retry_delay((count - 1) as i32),
{
}

// ---------------------------------------------------------------------------
// How work stands
// ---------------------------------------------------------------------------
/// What is read of a change of the cluster whose outcome is open.
#[derive(Clone, Debug, PartialEq, Eq)]
pub struct EffectRow {
    pub generation: i64,
    pub owner: String,
    pub attempt: i64,
    pub effect_id: i64,
    pub operation: String,
    pub object: RenderedObjectRef,
    pub expected_uid: Option<String>,
    pub expected_resource_version: Option<String>,
    pub started_at_unix_millis: i64,
}

/// What is read of the work on a materialization.
#[derive(Clone, Debug, PartialEq, Eq)]
pub struct WorkRow {
    pub ready_age_millis: Option<i64>,
    pub next_attempt_at_unix_millis: i64,
    pub operation_deadline_unix_millis: i64,
    pub operation_remaining_millis: Option<i64>,
    pub failure_count: i32,
    pub failure_kind: Option<String>,
    pub failure_message: String,
    pub wake_failure_message: String,
    pub effect: Option<EffectRow>,
}

/// A span that was read in milliseconds.
pub open spec fn read_span(millis: Option<i64>) -> Option<nat> {
    match millis {
        Some(millis) => Some((millis as u64) as nat * NANOS_PER_MILLI as nat),
        None => None,
    }
}

fn span_of(millis: Option<i64>) -> (span: Option<Duration>)
    ensures
        manifest::optional_view(span) == read_span(millis),
{
    match millis {
        Some(millis) => Some(Duration::from_millis(millis as u64)),
        None => None,
    }
}

/// An open change is told as it was read.
pub open spec fn tells_effect(effect: UncertainMaterializationEffect, row: EffectRow) -> bool {
    &&& effect.generation@ == row.generation
    &&& effect.owner == row.owner
    &&& effect.attempt == row.attempt as u64
    &&& effect.effect_id == row.effect_id as u64
    &&& effect.operation == row.operation
    &&& effect.object == row.object
    &&& effect.expected_uid == row.expected_uid
    &&& effect.expected_resource_version == row.expected_resource_version
    &&& effect.started_at_unix_millis == row.started_at_unix_millis
}

/// Tells how the work on a materialization stands. A revision that no instance can
/// have is reported.
pub fn work_status(row: WorkRow) -> (result: Result<MaterializationWorkStatus, StoreError>)
    ensures
        match result {
            Ok(status) => {
                &&& manifest::optional_view(status.ready_age) == read_span(row.ready_age_millis)
                &&& status.next_attempt_at_unix_millis == row.next_attempt_at_unix_millis
                &&& status.operation_deadline_unix_millis == row.operation_deadline_unix_millis
                &&& manifest::optional_view(status.operation_remaining) == read_span(
                    row.operation_remaining_millis,
                )
                &&& status.failure_count == row.failure_count as u32
                &&& status.failure_kind == row.failure_kind
                &&& status.failure_message == row.failure_message
                &&& status.wake_failure_message == row.wake_failure_message
                &&& match (row.effect, status.uncertain_effect) {
                    (None, None) => true,
                    (Some(open), Some(effect)) => tells_effect(effect, open),
                    _ => false,
                }
            },
            Err(error) => {
                &&& row.effect is Some
                &&& row.effect->Some_0.generation < 0
                &&& error@ == (StoreErrorView::Internal {
                    message: "stored generation was negative"@,
                })
            },
        },
{
    let uncertain_effect = match row.effect {
        None => None,
        Some(open) => {
            if open.generation < 0 {
                return Err(StoreError::internal("stored generation was negative"));
            }
            Some(
                UncertainMaterializationEffect {
                    generation: Generation::new(open.generation as u64),
                    owner: open.owner,
                    attempt: open.attempt as u64,
                    effect_id: open.effect_id as u64,
                    operation: open.operation,
                    object: open.object,
                    expected_uid: open.expected_uid,
                    expected_resource_version: open.expected_resource_version,
                    started_at_unix_millis: open.started_at_unix_millis,
                },
            )
        },
    };
    Ok(
        MaterializationWorkStatus {
            ready_age: span_of(row.ready_age_millis),
            next_attempt_at_unix_millis: row.next_attempt_at_unix_millis,
            operation_deadline_unix_millis: row.operation_deadline_unix_millis,
            operation_remaining: span_of(row.operation_remaining_millis),
            failure_count: row.failure_count as u32,
            failure_kind: row.failure_kind,
            failure_message: row.failure_message,
            wake_failure_message: row.wake_failure_message,
            uncertain_effect,
        },
    )
}

} // verus!
