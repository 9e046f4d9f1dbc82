//! Creation/update instants carried by stored documents, in milliseconds
//! since the Unix epoch.

use vstd::prelude::*;

verus! {

/// When a document was created and last updated.
#[derive(Debug, Clone, Copy, PartialEq, Eq, Structural)]
pub struct TimeStamp {
    pub created: i64,
    pub updated: i64,
}

/// Relies on chrono's `Utc::now` and `timestamp_millis`: the current
/// wall-clock instant. Nothing is promised of the value.
#[verifier::external_body]
fn now_millis() -> i64 {
    chrono::Utc::now().timestamp_millis()
}

impl Default for TimeStamp {
    /// Both instants read from the same clock sample.
    fn default() -> (r: Self)
        ensures
            r.spec_created() == r.spec_updated(),
    {
        let t = now_millis();
        TimeStamp { created: t, updated: t }
    }
}

impl TimeStamp {
    pub closed spec fn spec_created(&self) -> i64 {
        self.created
    }

    pub closed spec fn spec_updated(&self) -> i64 {
        self.updated
    }

    /// A stamp whose two instants both equal the given time.
    pub fn new(time: i64) -> (r: Self)
        ensures
            r.spec_created() == time,
            r.spec_updated() == time,
    {
        TimeStamp { created: time, updated: time }
    }

    pub fn get_created(&self) -> (r: i64)
        ensures
            r == self.spec_created(),
    {
        self.created
    }

    pub fn get_updated(&self) -> (r: i64)
        ensures
            r == self.spec_updated(),
    {
        self.updated
    }

    /// Refresh the update instant from the clock; creation is untouched.
    pub fn update(&mut self)
        ensures
            final(self).spec_created() == old(self).spec_created(),
    {
        self.updated = now_millis();
    }
}

} // verus!
