//! The messages that go back to a caller.

use crate::error::{check_violation, foreign_key_violation, unique_violation, StoreError};
use crate::text::{decimal_digits, join2, join3, push_decimal, text_eq};
use vstd::prelude::*;
use vstd::string::*;

verus! {

/// "OPERATION: DETAILS"
pub open spec fn error_message(operation: Seq<char>, details: Seq<char>) -> Seq<char> {
    operation + ": "@ + details
}

/// The message for an operation that touched `count` items.
pub open spec fn success_message(operation: Seq<char>, count: nat) -> Seq<char> {
    if count == 0 {
        "No items found for "@ + operation
    } else if count == 1 {
        operation + " completed successfully"@
    } else {
        operation + " completed successfully for "@ + decimal_digits(count) + " items"@
    }
}

/// The message for a store failure during an operation. It names the
/// operation, never what the engine said.
pub open spec fn database_error_message(error: StoreError, operation: Seq<char>) -> Seq<char> {
    match error {
        StoreError::RowNotFound => "No records found for "@ + operation,
        StoreError::Database { code } => {
            if code is Some && code->0@ == foreign_key_violation() {
                "Cannot perform operation due to foreign key constraint"@
            } else if code is Some && code->0@ == unique_violation() {
                "Record already exists"@
            } else if code is Some && code->0@ == check_violation() {
                "Data validation failed"@
            } else {
                "Database error during "@ + operation
            }
        },
        StoreError::Other => "Internal error during "@ + operation,
    }
}

/// Create a standardized error message.
pub fn format_error_message(operation: &str, details: &str) -> (r: String)
    ensures
        r@ == error_message(operation@, details@),
{
    join3(operation, ": ", details)
}

/// Create a standardized success message.
pub fn format_success_message(operation: &str, count: usize) -> (r: String)
    ensures
        r@ == success_message(operation@, count as nat),
{
    if count == 0 {
        join2("No items found for ", operation)
    } else if count == 1 {
        join2(operation, " completed successfully")
    } else {
        let mut s = join2(operation, " completed successfully for ");
        push_decimal(&mut s, count as u64);
        s.append(" items");
        s
    }
}

/// Format a store failure for the caller.
pub fn format_database_error(error: &StoreError, operation: &str) -> (r: String)
    ensures
        r@ == database_error_message(*error, operation@),
{
    match error {
        StoreError::RowNotFound => join2("No records found for ", operation),
        StoreError::Database { code } => {
            match code {
                Some(c) => {
                    if text_eq(c.as_str(), "23503") {
                        "Cannot perform operation due to foreign key constraint".to_owned()
                    } else if text_eq(c.as_str(), "23505") {
                        "Record already exists".to_owned()
                    } else if text_eq(c.as_str(), "23514") {
                        "Data validation failed".to_owned()
                    } else {
                        join2("Database error during ", operation)
                    }
                },
                None => join2("Database error during ", operation),
            }
        },
        StoreError::Other => join2("Internal error during ", operation),
    }
}

} // verus!
