//! The error messages of the operations, each as a specification and as the
//! function that builds it.

use crate::driver::{describe, ReadFailure};
use crate::text::{decimal, int_text, join, lemma_concat_starts_with, starts_with};
use vstd::prelude::*;

verus! {

/// The message of a failure inside the store: a fixed context, then
/// whatever the driver said.
pub(crate) fn failure(context: &str, e: &rusqlite::Error) -> (s: String)
    ensures
        starts_with(s@, context@),
{
    let detail = describe(e);
    proof {
        lemma_concat_starts_with(context@, detail@);
    }
    join(context, detail.as_str())
}

/// A message that reports a failed statement of a query.
pub open spec fn is_query_error(message: Seq<char>) -> bool {
    starts_with(message, "Query error: "@)
}

/// A message that reports a row that could not be read.
pub open spec fn is_row_mapping_error(message: Seq<char>) -> bool {
    starts_with(message, "Row mapping error: "@)
}

/// The message for a row that could not be read, given what was wrong
/// with it.
pub open spec fn row_mapping_message(fault: Seq<char>) -> Seq<char> {
    "Row mapping error: "@ + fault
}

/// The message for a single-row query whose row could not be read, given
/// what was wrong with it.
pub open spec fn query_message(fault: Seq<char>) -> Seq<char> {
    "Query error: "@ + fault
}

pub(crate) fn row_mapping_error(fault: &String) -> (s: String)
    ensures
        s@ == row_mapping_message(fault@),
        is_row_mapping_error(s@),
{
    proof {
        lemma_concat_starts_with("Row mapping error: "@, fault@);
    }
    join("Row mapping error: ", fault.as_str())
}

pub(crate) fn query_error(fault: &String) -> (s: String)
    ensures
        s@ == query_message(fault@),
        is_query_error(s@),
{
    proof {
        lemma_concat_starts_with("Query error: "@, fault@);
    }
    join("Query error: ", fault.as_str())
}

/// The message of a result set that could not be read: a query error where
/// the statement failed, a row mapping error where a row did.
pub(crate) fn read_failure(f: &ReadFailure) -> (s: String)
    ensures
        is_query_error(s@) || is_row_mapping_error(s@),
{
    match f {
        ReadFailure::Statement(e) => failure("Query error: ", e),
        ReadFailure::Row(e) => failure("Row mapping error: ", e),
    }
}

/// The message for a target that an update or a removal did not find.
/// `kind` is `Category` or `Product`.
pub open spec fn not_found_message(kind: Seq<char>, id: Seq<char>) -> Seq<char> {
    kind + " not found: "@ + id
}

pub(crate) fn not_found(kind: &str, id: &String) -> (s: String)
    ensures
        s@ == not_found_message(kind@, id@),
{
    let head = join(kind, " not found: ");
    join(head.as_str(), id.as_str())
}

/// The message for a removal that dependents forbid. `kind` is what was to
/// be removed, `dependents` names what refers to it, `count` says how many
/// do.
pub open spec fn conflict_message(
    kind: Seq<char>,
    id: Seq<char>,
    count: i64,
    dependents: Seq<char>,
) -> Seq<char> {
    "Cannot delete "@ + kind + " '"@ + id + "': it is referenced by "@ + int_text(count as int)
        + " "@ + dependents
}

pub(crate) fn conflict(kind: &str, id: &String, count: i64, dependents: &str) -> (s: String)
    ensures
        s@ == conflict_message(kind@, id@, count, dependents@),
{
    let s = join("Cannot delete ", kind);
    let s = join(s.as_str(), " '");
    let s = join(s.as_str(), id.as_str());
    let s = join(s.as_str(), "': it is referenced by ");
    let s = join(s.as_str(), decimal(count).as_str());
    let s = join(s.as_str(), " ");
    join(s.as_str(), dependents)
}

} // verus!
