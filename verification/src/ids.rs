//! Fresh identifiers and the current time.

use crate::model::Timestamp;
use vstd::prelude::*;

verus! {

/// Calls `uuid::Uuid::new_v4` and writes the outcome as text: a random
/// identifier. Nothing is claimed of it.
#[verifier::external_body]
pub fn generate_id() -> (r: String) {
    uuid::Uuid::new_v4().to_string()
}

/// Calls `chrono::Utc::now`: the current time as seconds since 1970 and
/// nanoseconds within the second. Nothing is claimed of it. chrono does not
/// return where the clock of the system stands before 1970.
#[verifier::external_body]
pub(crate) fn now() -> (r: Timestamp) {
    let now = chrono::Utc::now();
    Timestamp { seconds: now.timestamp(), nanos: now.timestamp_subsec_nanos() }
}

/// An identifier and a time of creation, as a new dog or schedule gets them.
#[derive(Clone, Debug)]
pub struct Stamp {
    pub id: String,
    pub created_at: Timestamp,
}

/// What a [`Stamp`] holds, as mathematical values.
pub struct StampView {
    pub id: Seq<char>,
    pub created_at: Timestamp,
}

impl View for Stamp {
    type V = StampView;

    open spec fn view(&self) -> StampView {
        StampView { id: self.id@, created_at: self.created_at }
    }
}

impl Stamp {
    /// A fresh identifier with the current time.
    pub fn fresh() -> (r: Stamp) {
        Stamp { id: generate_id(), created_at: now() }
    }
}

} // verus!
