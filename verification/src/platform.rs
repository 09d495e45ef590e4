//! What this crate takes from its surroundings: the wall clock, fresh random
//! identifiers, and the platform's reading of a file path. Little or nothing
//! can be proved about them, so each function that uses one of them has a
//! counterpart that takes the value as an argument.

use vstd::prelude::*;

verus! {

/// Milliseconds since the Unix epoch, read from the system clock through
/// `chrono::Utc::now().timestamp_millis()`. Nothing is claimed of the value:
/// the clock may be set to any instant and may step backwards.
#[verifier::external_body]
pub(crate) fn now_millis() -> (millis: i64) {
    chrono::Utc::now().timestamp_millis()
}

/// A fresh random identifier: `uuid::Uuid::new_v4()` rendered by its `Display`
/// impl, which writes the hyphenated form. The only claim is the length of that
/// form, 36 characters; uniqueness is a matter of probability and not stated.
#[verifier::external_body]
pub(crate) fn fresh_id() -> (id: String)
    ensures
        id@.len() == 36,
{
    uuid::Uuid::new_v4().to_string()
}

/// The final component of a path, through `std::path::Path::file_name`:
/// `None` where the path has none, as when it ends in `..`. Where a component
/// ends is the platform's business, so nothing is claimed of the name.
#[verifier::external_body]
pub(crate) fn base_name(path: &str) -> (name: Option<String>) {
    std::path::Path::new(path).file_name().and_then(|n| n.to_str()).map(|s| s.to_owned())
}

} // verus!
