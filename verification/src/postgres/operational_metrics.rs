//! What an operator watches, from the rows that the database counts.

use super::materialization_ops::{self, counted, materialization_state_from_db};
use crate::duration::{Duration, NANOS_PER_MILLI};
use crate::manifest;
use crate::materialization::{
    MaterializationBacklogOperationalMetrics, MaterializationHeldKeysOperationalMetrics,
    MaterializationOperationalMetrics, MaterializationState,
};
use crate::store::{StoreError, StoreErrorView};
use vstd::prelude::*;

verus! {

/// A row of the backlog: how many materializations wait in a state, and how old the
/// oldest is.
#[derive(Clone, Debug, PartialEq, Eq)]
pub struct BacklogRow {
    pub state: String,
    pub count: i64,
    pub oldest_age_millis: i64,
}

/// A row of held keys: how many are held in a state.
#[derive(Clone, Debug, PartialEq, Eq)]
pub struct HeldKeysRow {
    pub state: String,
    pub exclusivity_keys_held: i64,
}

/// The model of what a row of the backlog says: the state, the number, and the age
/// of the oldest in nanoseconds.
pub type BacklogView = (MaterializationState, u64, Option<nat>);

/// The model of what a row of held keys says: the state and the number.
pub type HeldKeysView = (MaterializationState, u64);

/// What a row of the backlog says.
pub open spec fn backlog_outcome(row: BacklogRow) -> Result<BacklogView, StoreErrorView> {
    match materialization_ops::state_outcome(row.state@) {
        Err(error) => Err(error),
        Ok(state) => match materialization_ops::count_outcome(
            row.count,
            "materialization backlog count was negative"@,
        ) {
            Err(error) => Err(error),
            Ok(count) => match materialization_ops::count_outcome(
                row.oldest_age_millis,
                "materialization oldest age was negative"@,
            ) {
                Err(error) => Err(error),
                Ok(millis) => Ok((state, count, Some(millis as nat * NANOS_PER_MILLI as nat))),
            },
        },
    }
}

/// The model of the backlog of a state.
pub open spec fn backlog_view(metrics: MaterializationBacklogOperationalMetrics) -> BacklogView {
    (metrics.state, metrics.count, manifest::optional_view(metrics.oldest_age))
}

/// What a row of the backlog says.
pub fn backlog_metrics(row: &BacklogRow) -> (result: Result<
    MaterializationBacklogOperationalMetrics,
    StoreError,
>)
    ensures
        match result {
            Ok(metrics) => backlog_outcome(*row) == Ok::<BacklogView, StoreErrorView>(
                backlog_view(metrics),
            ),
            Err(error) => backlog_outcome(*row) == Err::<BacklogView, StoreErrorView>(error@),
        },
{
    let state = materialization_state_from_db(row.state.as_str())?;
    let count: u64 = counted(row.count, "materialization backlog count was negative")?;
    let age: u64 = counted(row.oldest_age_millis, "materialization oldest age was negative")?;
    Ok(
        MaterializationBacklogOperationalMetrics::new(
            state,
            count,
            Some(Duration::from_millis(age)),
        ),
    )
}

/// What a row of held keys says.
pub open spec fn held_keys_outcome(row: HeldKeysRow) -> Result<HeldKeysView, StoreErrorView> {
    match materialization_ops::state_outcome(row.state@) {
        Err(error) => Err(error),
        Ok(state) => match materialization_ops::count_outcome(
            row.exclusivity_keys_held,
            "exclusivity key count was negative"@,
        ) {
            Err(error) => Err(error),
            Ok(held) => Ok((state, held)),
        },
    }
}

/// The model of the keys held in a state.
pub open spec fn held_keys_view(metrics: MaterializationHeldKeysOperationalMetrics) -> HeldKeysView {
    (metrics.state, metrics.exclusivity_keys_held)
}

/// What a row of held keys says.
pub fn held_key_metrics(row: &HeldKeysRow) -> (result: Result<
    MaterializationHeldKeysOperationalMetrics,
    StoreError,
>)
    ensures
        match result {
            Ok(metrics) => held_keys_outcome(*row) == Ok::<HeldKeysView, StoreErrorView>(
                held_keys_view(metrics),
            ),
            Err(error) => held_keys_outcome(*row) == Err::<HeldKeysView, StoreErrorView>(error@),
        },
{
    let state = materialization_state_from_db(row.state.as_str())?;
    let held: u64 = counted(row.exclusivity_keys_held, "exclusivity key count was negative")?;
    Ok(MaterializationHeldKeysOperationalMetrics::new(state, held))
}

/// The first of some rows of the backlog that cannot be read.
pub open spec fn backlog_fault(rows: Seq<BacklogRow>, count: nat) -> Option<StoreErrorView>
    decreases count,
{
    if count == 0 || count > rows.len() {
        None
    } else {
        match backlog_fault(rows, (count - 1) as nat) {
            Some(error) => Some(error),
            None => match backlog_outcome(rows[count - 1]) {
                Err(error) => Some(error),
                Ok(_) => None,
            },
        }
    }
}

/// The first of some rows of held keys that cannot be read.
pub open spec fn held_keys_fault(rows: Seq<HeldKeysRow>, count: nat) -> Option<StoreErrorView>
    decreases count,
{
    if count == 0 || count > rows.len() {
        None
    } else {
        match held_keys_fault(rows, (count - 1) as nat) {
            Some(error) => Some(error),
            None => match held_keys_outcome(rows[count - 1]) {
                Err(error) => Some(error),
                Ok(_) => None,
            },
        }
    }
}

/// Metrics tell what the rows of the backlog say, one for one.
pub open spec fn tells_backlog(
    metrics: Seq<MaterializationBacklogOperationalMetrics>,
    rows: Seq<BacklogRow>,
) -> bool {
    &&& metrics.len() == rows.len()
    &&& forall|i: int|
        0 <= i < rows.len() ==> backlog_outcome(#[trigger] rows[i]) == Ok::<
            BacklogView,
            StoreErrorView,
        >(backlog_view(metrics[i]))
}

/// Metrics tell what the rows of held keys say, one for one.
pub open spec fn tells_held_keys(
    metrics: Seq<MaterializationHeldKeysOperationalMetrics>,
    rows: Seq<HeldKeysRow>,
) -> bool {
    &&& metrics.len() == rows.len()
    &&& forall|i: int|
        0 <= i < rows.len() ==> held_keys_outcome(#[trigger] rows[i]) == Ok::<
            HeldKeysView,
            StoreErrorView,
        >(held_keys_view(metrics[i]))
}

proof fn lemma_backlog_fault(rows: Seq<BacklogRow>, count: nat, more: nat)
    requires
        count <= more <= rows.len(),
        backlog_fault(rows, count) is Some,
    ensures
        backlog_fault(rows, more) == backlog_fault(rows, count),
    decreases more - count,
{
    if count < more {
        lemma_backlog_fault(rows, count, (more - 1) as nat);
    }
}

proof fn lemma_held_keys_fault(rows: Seq<HeldKeysRow>, count: nat, more: nat)
    requires
        count <= more <= rows.len(),
        held_keys_fault(rows, count) is Some,
    ensures
        held_keys_fault(rows, more) == held_keys_fault(rows, count),
    decreases more - count,
{
    if count < more {
        lemma_held_keys_fault(rows, count, (more - 1) as nat);
    }
}

fn read_backlog(rows: &Vec<BacklogRow>) -> (result: Result<
    Vec<MaterializationBacklogOperationalMetrics>,
    StoreError,
>)
    ensures
        match result {
            Ok(metrics) => backlog_fault(rows@, rows@.len()) is None && tells_backlog(
                metrics@,
                rows@,
            ),
            Err(error) => backlog_fault(rows@, rows@.len()) == Some(error@),
        },
{
    let mut metrics: Vec<MaterializationBacklogOperationalMetrics> = Vec::new();
    let mut at: usize = 0;
    while at < rows.len()
        invariant
            at <= rows@.len(),
            backlog_fault(rows@, at as nat) is None,
            metrics@.len() == at,
            forall|i: int|
                0 <= i < at ==> backlog_outcome(#[trigger] rows@[i]) == Ok::<
                    BacklogView,
                    StoreErrorView,
                >(backlog_view(metrics@[i])),
        decreases rows@.len() - at,
    {
        match backlog_metrics(&rows[at]) {
            Ok(read) => metrics.push(read),
            Err(error) => {
                proof {
                    lemma_backlog_fault(rows@, at as nat + 1, rows@.len());
                }
                return Err(error);
            },
        }
        at = at + 1;
    }
    Ok(metrics)
}

fn read_held_keys(rows: &Vec<HeldKeysRow>) -> (result: Result<
    Vec<MaterializationHeldKeysOperationalMetrics>,
    StoreError,
>)
    ensures
        match result {
            Ok(metrics) => held_keys_fault(rows@, rows@.len()) is None && tells_held_keys(
                metrics@,
                rows@,
            ),
            Err(error) => held_keys_fault(rows@, rows@.len()) == Some(error@),
        },
{
    let mut metrics: Vec<MaterializationHeldKeysOperationalMetrics> = Vec::new();
    let mut at: usize = 0;
    while at < rows.len()
        invariant
            at <= rows@.len(),
            held_keys_fault(rows@, at as nat) is None,
            metrics@.len() == at,
            forall|i: int|
                0 <= i < at ==> held_keys_outcome(#[trigger] rows@[i]) == Ok::<
                    HeldKeysView,
                    StoreErrorView,
                >(held_keys_view(metrics@[i])),
        decreases rows@.len() - at,
    {
        match held_key_metrics(&rows[at]) {
            Ok(read) => metrics.push(read),
            Err(error) => {
                proof {
                    lemma_held_keys_fault(rows@, at as nat + 1, rows@.len());
                }
                return Err(error);
            },
        }
        at = at + 1;
    }
    Ok(metrics)
}

/// What an operator watches: the rows as they were read, the changes whose outcome
/// is open and the failures that only an operator can lift. The first row that
/// cannot be read is reported, those of the backlog before those of held keys.
pub fn operational_metrics(
    backlog: &Vec<BacklogRow>,
    held_keys: &Vec<HeldKeysRow>,
    uncertain: i64,
    blocked: i64,
) -> (result: Result<MaterializationOperationalMetrics, StoreError>)
    ensures
        match result {
            Ok(metrics) => {
                &&& tells_backlog(metrics.backlog_states@, backlog@)
                &&& tells_held_keys(metrics.held_key_states@, held_keys@)
                &&& metrics.uncertain_effects == uncertain as u64
                &&& metrics.blocked_failures == blocked as u64
                &&& backlog_fault(backlog@, backlog@.len()) is None
                &&& held_keys_fault(held_keys@, held_keys@.len()) is None
            },
            Err(error) => Some(error@) == (match backlog_fault(backlog@, backlog@.len()) {
                Some(fault) => Some(fault),
                None => held_keys_fault(held_keys@, held_keys@.len()),
            }),
        },
{
    let backlog_states = read_backlog(backlog)?;
    let held_key_states = read_held_keys(held_keys)?;
    let mut metrics = MaterializationOperationalMetrics::new(backlog_states, held_key_states);
    metrics.uncertain_effects = uncertain as u64;
    metrics.blocked_failures = blocked as u64;
    Ok(metrics)
}

} // verus!
