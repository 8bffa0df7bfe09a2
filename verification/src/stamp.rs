//! Fresh identifiers and the current time. Both come from outside: Verus
//! reads the headers of these two functions and nothing else.

use vstd::prelude::*;

verus! {

/// `uuid::Uuid::new_v4`, rendered by its `Display`: a random version 4
/// identifier as text. Each call gives another one. Nothing is claimed of
/// the text. As `new_v4` does, it fails to return where the operating system
/// yields no random bytes.
#[verifier::external_body]
pub(crate) fn new_id() -> String {
    uuid::Uuid::new_v4().to_string()
}

/// `chrono::Utc::now`, rendered by `DateTime::format` as date, `T`, time to
/// the second and `Z`. Nothing is claimed of the text. As `Utc::now` does,
/// it fails to return where the system clock reads earlier than 1970.
#[verifier::external_body]
pub(crate) fn utc_timestamp() -> String {
    chrono::Utc::now().format("%Y-%m-%dT%H:%M:%SZ").to_string()
}

} // verus!
