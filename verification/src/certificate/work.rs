//! Separate certificate work capacity, leaving at least one shared database slot
//! for route and lifecycle work.

use crate::store::{self, StoreError, StoreErrorView};
use vstd::prelude::*;

verus! {

/// How many streams watch certificates at a time.
pub const WATCH_STREAMS: usize = 16;

/// How much certificate work goes on at a time.
#[derive(Clone, Copy, Debug, PartialEq, Eq, Structural)]
pub struct CertificateWorkLimits {
    pub operations: usize,
    pub crypto: usize,
    pub watch_reads: usize,
    pub watch_admission: usize,
}

/// The operations beside each other: all connections of the database but one, and
/// at most four.
pub open spec fn operation_capacity(database_capacity: usize) -> usize {
    if database_capacity == 0 {
        0
    } else if database_capacity - 1 <= 4 {
        (database_capacity - 1) as usize
    } else {
        4
    }
}

impl CertificateWorkLimits {
    /// The limits beside a database with so many connections. One watch reads at a
    /// time; as many wait as there are streams, and one more that is still
    /// draining.
    pub fn new(database_capacity: usize) -> (limits: CertificateWorkLimits)
        ensures
            limits.operations == operation_capacity(database_capacity),
            limits.crypto == 2,
            limits.watch_reads == 1,
            limits.watch_admission == WATCH_STREAMS + 1,
    {
        let rest: usize = database_capacity.saturating_sub(1);
        let operations: usize = if rest <= 4 {
            rest
        } else {
            4
        };
        CertificateWorkLimits {
            operations,
            crypto: 2,
            watch_reads: 1,
            watch_admission: WATCH_STREAMS + 1,
        }
    }
}

/// Certificate work always leaves a connection of the database to everything
/// else.
pub proof fn law_database_capacity_is_reserved(database_capacity: usize)
    ensures
        database_capacity > 0 ==> operation_capacity(database_capacity) < database_capacity,
        operation_capacity(database_capacity) <= 4,
{
}

/// What certificate work waits for.
#[derive(Clone, Copy, Debug, PartialEq, Eq, Structural)]
pub enum WorkStage {
    WatchAdmission,
    WatchTurn,
    Operation,
    Crypto,
}

/// What came of waiting.
#[derive(Clone, Copy, Debug, PartialEq, Eq, Structural)]
pub enum Turn {
    Granted,
    Exhausted,
    TimedOut,
}

/// Why certificate work does not go on.
pub open spec fn refusal(stage: WorkStage, turn: Turn) -> Option<Seq<char>> {
    match (stage, turn) {
        (_, Turn::Granted) => None,
        (WorkStage::WatchAdmission, _) => Some(
            "certificate watch admission capacity exhausted"@,
        ),
        (WorkStage::WatchTurn, Turn::TimedOut) => Some(
            "certificate watch admission deadline elapsed"@,
        ),
        (WorkStage::WatchTurn, Turn::Exhausted) => Some("certificate watch admission closed"@),
        (WorkStage::Operation, _) => Some("certificate work capacity exhausted"@),
        (WorkStage::Crypto, _) => Some("certificate crypto capacity exhausted"@),
    }
}

/// Goes on with certificate work, or tells why not.
pub fn take_turn(stage: WorkStage, turn: Turn) -> (result: Result<(), StoreError>)
    ensures
        store::plain_answer(result) == (match refusal(stage, turn) {
            None => Ok::<(), StoreErrorView>(()),
            Some(message) => Err::<(), StoreErrorView>(StoreErrorView::Unavailable { message }),
        }),
{
    match (stage, turn) {
        (_, Turn::Granted) => Ok(()),
        (WorkStage::WatchAdmission, _) => Err(
            StoreError::unavailable("certificate watch admission capacity exhausted"),
        ),
        (WorkStage::WatchTurn, Turn::TimedOut) => Err(
            StoreError::unavailable("certificate watch admission deadline elapsed"),
        ),
        (WorkStage::WatchTurn, Turn::Exhausted) => Err(
            StoreError::unavailable("certificate watch admission closed"),
        ),
        (WorkStage::Operation, _) => Err(
            StoreError::unavailable("certificate work capacity exhausted"),
        ),
        (WorkStage::Crypto, _) => Err(
            StoreError::unavailable("certificate crypto capacity exhausted"),
        ),
    }
}

} // verus!
