//! Checks on what goes into the database and on what comes out of it.
use vstd::prelude::*;

use crate::error::{seen, StoreError, StoreErrorView};
use crate::text::{is_blank, is_trimmed, is_white_space, join};

verus! {

/// What [`validate_non_empty`] finds.
pub open spec fn non_empty(field: Seq<char>, value: Seq<char>) -> Result<(), StoreErrorView> {
    if is_blank(value) {
        Err(StoreErrorView::InvalidInput(field + " cannot be empty"@))
    } else {
        Ok(())
    }
}

/// Refuses a value that holds nothing but white space.
pub fn validate_non_empty(field: &str, value: &str) -> (checked: Result<(), StoreError>)
    ensures
        seen(checked) == non_empty(field@, value@),
{
    let inner: &str = value.trim();
    proof {
        let (start, end) = choose|start: int, end: int|
            #[trigger] is_trimmed(value@, inner@, start, end);
        if inner@.len() == 0 {
            assert forall|i: int| 0 <= i < value@.len() implies is_white_space(
                #[trigger] value@[i],
            ) by {
                if i < start {
                    assert(value@.subrange(0, start)[i] == value@[i]);
                } else {
                    assert(value@.subrange(end, value@.len() as int)[i - end] == value@[i]);
                }
            }
        } else {
            assert(inner@.first() == value@[start]);
        }
    }
    if inner.is_empty() {
        Err(StoreError::InvalidInput(join(field, " cannot be empty")))
    } else {
        Ok(())
    }
}

/// What [`integer_to_sql`] returns.
pub open spec fn sql_integer(field: Seq<char>, value: u64) -> Result<i64, StoreErrorView> {
    if value <= i64::MAX {
        Ok(value as i64)
    } else {
        Err(StoreErrorView::InvalidInput(field + " exceeds SQLite's integer range"@))
    }
}

/// The integer that SQLite keeps for a number.
pub fn integer_to_sql(field: &str, value: u64) -> (stored: Result<i64, StoreError>)
    ensures
        seen(stored) == sql_integer(field@, value),
{
    if value <= i64::MAX as u64 {
        Ok(value as i64)
    } else {
        Err(StoreError::InvalidInput(join(field, " exceeds SQLite's integer range")))
    }
}

/// What [`sql_to_integer`] returns.
pub open spec fn number_from_sql(field: Seq<char>, value: i64) -> Result<u64, StoreErrorView> {
    if value >= 0 {
        Ok(value as u64)
    } else {
        Err(StoreErrorView::InvalidData(field + " cannot be negative"@))
    }
}

/// The number that SQLite kept as an integer.
pub fn sql_to_integer(field: &str, value: i64) -> (number: Result<u64, StoreError>)
    ensures
        seen(number) == number_from_sql(field@, value),
{
    if value >= 0 {
        Ok(value as u64)
    } else {
        Err(StoreError::InvalidData(join(field, " cannot be negative")))
    }
}

} // verus!
