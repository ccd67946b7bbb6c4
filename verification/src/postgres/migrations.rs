//! Migrations of the database.

use crate::manifest;
use crate::store::{self, StoreError, StoreErrorView};
use crate::text::{self, quoted, same_text, signed_decimal_text};
use vstd::prelude::*;
use vstd::string::*;

verus! {

/// What to do with a migration.
#[derive(Clone, Copy, Debug, PartialEq, Eq, Structural)]
pub enum MigrationStep {
    Apply,
    Skip,
}

/// What to do with a migration: it is applied once, and a version that was applied
/// under another name is an error.
pub open spec fn migration_outcome(version: i32, name: Seq<char>, applied: Option<Seq<char>>) -> Result<
    MigrationStep,
    StoreErrorView,
> {
    match applied {
        None => Ok(MigrationStep::Apply),
        Some(applied) => if applied == name {
            Ok(MigrationStep::Skip)
        } else {
            Err(
                StoreErrorView::Internal {
                    message: "migration version "@ + text::signed_decimal(version as int)
                        + " was already applied as "@ + text::quoted_text(applied) + ", expected "@
                        + text::quoted_text(name),
                },
            )
        },
    }
}

/// Settles what to do with a migration.
pub fn migration_step(version: i32, name: &str, applied: &Option<String>) -> (result: Result<
    MigrationStep,
    StoreError,
>)
    ensures
        store::plain_answer(result) == migration_outcome(
            version,
            name@,
            manifest::optional_view(*applied),
        ),
{
    match applied {
        None => Ok(MigrationStep::Apply),
        Some(applied) => {
            if same_text(applied.as_str(), name) {
                return Ok(MigrationStep::Skip);
            }
            let message = "migration version ".to_owned().concat(
                signed_decimal_text(version as i64).as_str(),
            ).concat(" was already applied as ").concat(quoted(applied.as_str()).as_str()).concat(
                ", expected ",
            ).concat(quoted(name).as_str());
            Err(StoreError::internal(message.as_str()))
        },
    }
}

} // verus!
